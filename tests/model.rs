use rs_can::api::ZCanChlCfg;
use rs_can::bitrate::{
    get_fd_cfg, get_fd_set, resolve_timing, BitrateCtx, BitrateTables, TimingRecord, ZCanChlMode, ZCanChlType,
    ZCanFdChlCfgSet,
};
use rs_can::builder::ChannelConfig;
use rs_can::config::CanFilter;
use rs_can::constants::{ACC_CODE, CHANNEL_MODE, CHANNEL_TYPE};
use rs_can::device::{CmdPath, ZCanDeviceType};
use rs_can::error::CanError;
use rs_can::frame::{CanMessage, CanType, DEFAULT_PADDING};
use rs_can::lin::{ZLinCheckSumMode, ZLinEventType, ZLinMode};
use rs_can::nican::{
    check_operation, check_status, filetime_to_millis, ni_arbitration_id, ni_split_id, NiCan, NiCanContext, NiCanFrame,
    NiCanStruct, Status, NC_ATTR_BAUD_RATE, NC_ATTR_CAN_COMP_XTD, NC_FRMTYPE_COMM_ERR, NC_FL_CAN_ARBID_XTD,
};
use rs_can::settings::{channel_settings, ChannelSetting};
use rs_can::util::get_libpath;
use rs_can::wire::{ZCanFrameVCI, ZCanMsg20};

const A: TimingRecord = TimingRecord { tseg1: 13, tseg2: 2, sjw: 2, smp: 0, brp: 5 };
const B: TimingRecord = TimingRecord { tseg1: 7, tseg2: 2, sjw: 2, smp: 0, brp: 1 };
const C: TimingRecord = TimingRecord { tseg1: 30, tseg2: 7, sjw: 7, smp: 1, brp: 0 };

fn ctx(data: Option<Vec<(u32, TimingRecord)>>) -> BitrateCtx {
    BitrateCtx { bitrate: vec![(500_000, A), (1_000_000, B)], data_bitrate: data, clock: Some(60_000_000) }
}

#[test]
fn nominal_only_without_data_table_reuses_arbitration_timing() {
    let (a, d) = get_fd_set(500_000, None, &ctx(None)).unwrap();
    assert_eq!(a, d);
    assert_eq!(resolve_timing(500_000, None, &ctx(None)).unwrap(), (A, A));
}

#[test]
fn data_rate_looked_up_in_data_table() {
    let c = ctx(Some(vec![(2_000_000, C)]));
    assert_eq!(resolve_timing(500_000, Some(2_000_000), &c).unwrap(), (A, C));
    assert!(matches!(resolve_timing(500_000, Some(1_000_000), &c), Err(CanError::OtherError(_))));
}

#[test]
fn data_rate_without_data_table_uses_arbitration_table() {
    assert_eq!(resolve_timing(500_000, Some(1_000_000), &ctx(None)).unwrap(), (A, B));
    assert!(resolve_timing(500_000, Some(2_000_000), &ctx(None)).is_err());
}

#[test]
fn no_data_rate_with_data_table_prefers_its_nominal_row() {
    let c = ctx(Some(vec![(500_000, C)]));
    assert_eq!(resolve_timing(500_000, None, &c).unwrap(), (A, C));
    assert_eq!(resolve_timing(1_000_000, None, &c).unwrap(), (B, B));
}

#[test]
fn unconfigured_nominal_rate_fails() {
    assert!(matches!(resolve_timing(250_000, None, &ctx(None)), Err(CanError::OtherError(_))));
    assert!(get_fd_set(250_000, Some(1_000_000), &ctx(None)).is_err());
}

#[test]
fn timing_word_packs_fields() {
    let s = ZCanFdChlCfgSet::new(13, 2, 2, 0, 5).unwrap();
    assert_eq!(s.get_timing(), (5 << 22) | (2 << 15) | (2 << 8) | 13);
    assert_eq!(s.get_timing(), 0x0141_020d);
    assert!(ZCanFdChlCfgSet::new(1, 0x80, 1, 0, 1).is_err());
    assert!(ZCanFdChlCfgSet::new(1, 1, 1, 0, 0x400).is_err());
}

#[test]
fn fd_config_sets_non_iso_bit_and_clock() {
    let cfg = get_fd_cfg(ZCanChlType::CANFD_NON_ISO, ZCanChlMode::ListenOnly, 500_000, None, &ctx(None)).unwrap();
    assert_eq!(cfg.mode, 3);
    assert_eq!(cfg.clk, 60_000_000);
    let mut no_clock = ctx(None);
    no_clock.clock = None;
    assert!(get_fd_cfg(ZCanChlType::CANFD_ISO, ZCanChlMode::Normal, 500_000, None, &no_clock).is_err());
}

#[test]
fn channel_config_for_device_families() {
    let mut cfg = ChannelConfig::new(500_000);
    cfg.add_other(CHANNEL_TYPE, ZCanChlType::CANFD_ISO);
    cfg.add_other(CHANNEL_MODE, ZCanChlMode::Normal);
    let fd = ZCanChlCfg::new(ZCanDeviceType::ZCAN_USBCANFD_200U, &ctx(None), &cfg).unwrap();
    assert!(matches!(fd, ZCanChlCfg::CanFd { .. }));
    let can = ZCanChlCfg::new(ZCanDeviceType::ZCAN_USBCAN1, &ctx(None), &cfg).unwrap();
    match can {
        ZCanChlCfg::Can { timing, mode, acc_code, acc_mask } => {
            assert_eq!(timing, ZCanFdChlCfgSet::new(13, 2, 2, 0, 5).unwrap());
            assert_eq!((mode, acc_code, acc_mask), (0, 0, 0xffff_ffff));
        }
        _ => panic!("expected a classic configuration"),
    }
    cfg.add_other(ACC_CODE, true);
    assert!(matches!(
        ZCanChlCfg::new(ZCanDeviceType::ZCAN_USBCAN1, &ctx(None), &cfg),
        Err(CanError::TypeMismatch(_))
    ));
}

#[test]
fn bitrate_tables_by_device_type() {
    let mut t = BitrateTables::new();
    t.add(41, ctx(None)).unwrap();
    assert!(t.get(41).is_ok());
    assert!(matches!(t.add(41, ctx(None)), Err(CanError::InitializeError(_))));
    assert!(BitrateCtx::new(vec![(1, A), (1, B)], None, None).is_err());
    assert!(BitrateCtx::new(vec![(1, A), (2, B)], Some(vec![(3, C)]), None).is_ok());
    assert!(matches!(t.get(59), Err(CanError::InitializeError(_))));
}

#[test]
fn property_fetched_under_other_type_is_a_mismatch() {
    let mut cfg = ChannelConfig::new(500_000);
    cfg.add_other("mode", 5u32);
    assert!(matches!(cfg.get_other::<bool>("mode"), Err(CanError::TypeMismatch(_))));
    assert!(matches!(cfg.get_other::<u8>("mode"), Err(CanError::TypeMismatch(_))));
    assert_eq!(cfg.get_other::<u32>("mode").unwrap(), Some(5));
    assert_eq!(cfg.get_other::<u32>("unset").unwrap(), None);
    cfg.add_other("mode", true);
    assert_eq!(cfg.get_other::<bool>("mode").unwrap(), Some(true));
    assert!(cfg.get_other::<u32>("mode").is_err());
    let filters = vec![CanFilter { can_id: 0x10, can_mask: 0x7ff, extended: false }];
    cfg.add_other("filters", filters.clone());
    assert_eq!(cfg.get_other::<Vec<CanFilter>>("filters").unwrap(), Some(filters));
    cfg.set_data_bitrate(2_000_000);
    cfg.set_resistance(true);
    assert_eq!((cfg.bitrate(), cfg.dbitrate(), cfg.resistance()), (500_000, Some(2_000_000), Some(true)));
}

#[test]
fn frame_constructors_respect_class_limits() {
    let m = CanMessage::new(0x7ff, false, &[1, 2, 3, 4, 5, 6, 7, 8]).unwrap();
    assert_eq!(m.can_type(), CanType::Can);
    let fd = CanMessage::new(0x1fff_ffff, true, &[0u8; 64]).unwrap();
    assert_eq!(fd.can_type(), CanType::CanFd);
    assert!(CanMessage::new(0x1, false, &[0u8; 65]).is_none());
    assert!(CanMessage::new(0x800, false, &[]).is_none());
    assert!(CanMessage::new_remote(0x10, false, 9).is_none());
    let r = CanMessage::new_remote(0x10, false, 4).unwrap();
    assert!(r.is_remote());
    assert_eq!(r.length(), 4);
    let mut c = m.clone();
    c.set_bitrate_switch(true);
    assert!(!c.bitrate_switch);
    assert!(!fd.clone().set_can_type(CanType::Can));
}

#[test]
fn usbcan_frame_round_trip() {
    let mut m = CanMessage::new(0x1234_5678 & 0x1fff_ffff, true, &[9, 8, 7]).unwrap();
    m.set_channel(1);
    let w = ZCanFrameVCI::from_message(&m);
    assert_eq!(w.data, vec![9, 8, 7, DEFAULT_PADDING, DEFAULT_PADDING, DEFAULT_PADDING, DEFAULT_PADDING, DEFAULT_PADDING]);
    assert_eq!((w.ext_flag, w.rem_flag, w.can_len), (1, 0, 3));
    let back = w.into_message();
    assert_eq!(back.data(), &[9, 8, 7]);
    assert_eq!(back.id(), m.id());
    assert!(back.is_extended() && !back.is_remote());
    assert_eq!(back.can_type(), CanType::Can);
}

#[test]
fn usbcanfd_frame_round_trip() {
    let mut m = CanMessage::new(0x123, false, &[0x55; 20]).unwrap();
    m.set_bitrate_switch(true);
    m.set_error_frame(true);
    let w = ZCanMsg20::from_message(&m);
    assert_eq!(w.flags, (1 << 4) | (1 << 10) | (1 << 11));
    assert_eq!(w.data.len(), 64);
    let back = w.into_message();
    assert_eq!(back.data(), &[0x55; 20][..]);
    assert_eq!(back.can_type(), CanType::CanFd);
    assert!(back.bitrate_switch && back.is_error() && !back.error_state_indicator);
    let r = CanMessage::new_remote(0x1abc, true, 2).unwrap();
    let back = ZCanMsg20::from_message(&r).into_message();
    assert!(back.is_remote() && back.is_extended());
    assert_eq!((back.id(), back.length()), (0x1abc, 2));
}

#[test]
fn nican_identifier_and_timestamp() {
    assert_eq!(ni_arbitration_id(0x123, true), 0x2000_0123);
    assert_eq!(ni_split_id(0x2000_0123), (0x123, true));
    assert_eq!(ni_split_id(0x123), (0x123, false));
    assert_eq!(filetime_to_millis(116_444_736_000_000_000 + 10_000 * 1_500), 1_500);
    assert_eq!(filetime_to_millis(5), 0);
    let m = CanMessage::new(0x10, true, &[1, 2]).unwrap();
    let f = NiCanFrame::from_message(&m);
    assert_eq!(f.arbitration_id, 0x10 | NC_FL_CAN_ARBID_XTD);
    let s = NiCanStruct { timestamp: 0, arbitration_id: f.arbitration_id, frame_type: 0, data_length: 2, data: f.data };
    let back = s.into_message().unwrap();
    assert_eq!(back.data(), &[1, 2]);
    assert!(back.is_extended());
}

#[test]
fn status_codes_split_three_ways() {
    assert_eq!(check_status(0), Ok(Status::Success));
    assert_eq!(check_status(3), Ok(Status::Warning(3)));
    assert_eq!(check_status(-7), Err(-7));
}

#[test]
fn nican_channels_and_attributes() {
    assert_eq!(NiCan::channel_info("CAN0"), "NI-CAN: CAN0");
    let mut n = NiCan::new();
    let filters = vec![CanFilter { can_id: 0x10, can_mask: 0xff, extended: true }];
    n.add_channel("CAN0", NiCanContext { handle: 3, filters: filters.clone(), bitrate: 500_000, log_errors: true });
    assert_eq!(n.bitrate("CAN0").unwrap(), 500_000);
    assert!(n.is_log_errors("CAN0").unwrap());
    assert_eq!(n.filters("CAN0").unwrap(), filters);
    assert!(matches!(n.bitrate("CAN1"), Err(CanError::ChannelNotOpened(_))));
    n.remove_channel("CAN0");
    assert!(n.filters("CAN0").is_err());
    let (ids, vals) = NiCan::open_attributes(&filters, 250_000, false);
    assert_eq!(ids.len(), 5);
    assert_eq!((ids[2], vals[2]), (NC_ATTR_CAN_COMP_XTD, 0x2000_0010));
    assert_eq!((ids[4], vals[4]), (NC_ATTR_BAUD_RATE, 250_000));
    let (ids, vals) = NiCan::open_attributes(&vec![], 250_000, true);
    assert_eq!(ids.len(), 7);
    assert_eq!(vals[1], 1);
}

#[test]
fn codes_and_small_types() {
    assert_eq!(ZCanDeviceType::try_from_code(41).unwrap(), ZCanDeviceType::ZCAN_USBCANFD_200U);
    assert!(ZCanDeviceType::try_from_code(99).is_err());
    assert!(ZCanDeviceType::ZCAN_USBCANFD_800U.canfd_support());
    assert!(!ZCanDeviceType::ZCAN_USBCAN2.lin_support());
    assert!(ZCanDeviceType::ZCAN_CLOUD.cloud_support());
    assert_eq!(ZLinMode::try_from_code(1).unwrap(), ZLinMode::Master);
    assert!(ZLinEventType::try_from_code(3).is_err());
    assert_eq!(ZLinCheckSumMode::try_from_code(2).unwrap(), ZLinCheckSumMode::Auto);
    assert_eq!(CmdPath::new_path("info/x").get_path(), Some("info/x"));
    assert_eq!(CmdPath::new_reference(7).get_reference(), Some(7));
    let e = CanError::channel_not_opened("3");
    assert_eq!(e.message(), "channel: 3 is not opened");
}

#[test]
fn operation_failure_carries_code() {
    match check_operation(-5, "ncWrite") {
        Err(CanError::OperationError(m)) => assert_eq!(m, "ncWrite failed with status -5"),
        other => panic!("unexpected {:?}", other),
    }
    assert_eq!(check_operation(2, "ncWrite").unwrap(), Status::Warning(2));
}

#[test]
fn nican_receive_outcomes() {
    let mut n = NiCan::new();
    n.add_channel("CAN0", NiCanContext { handle: 1, filters: vec![], bitrate: 500_000, log_errors: false });
    let raw = NiCanStruct { timestamp: 0, arbitration_id: 0x55, frame_type: 0, data_length: 1, data: vec![7; 8] };
    assert!(matches!(n.finish_receive("CAN1", 0, 0, &raw), Err(CanError::ChannelNotOpened(_))));
    assert!(matches!(n.finish_receive("CAN0", -1, 0, &raw), Err(CanError::ChannelTimeout(_))));
    assert!(matches!(n.finish_receive("CAN0", 0, -1, &raw), Err(CanError::OperationError(_))));
    let frames = n.finish_receive("CAN0", 1, 0, &raw).unwrap();
    assert_eq!(frames.len(), 1);
    assert_eq!(frames[0].data(), &[7]);
    assert!(matches!(n.finish_transmit("CAN0", -3), Err(CanError::OperationError(_))));
    assert_eq!(n.finish_transmit("CAN0", 4).unwrap(), Status::Warning(4));
    let err = NiCanStruct { timestamp: 0, arbitration_id: 0x55, frame_type: NC_FRMTYPE_COMM_ERR, data_length: 2, data: vec![1; 8] };
    let frames = n.finish_receive("CAN0", 0, 0, &err).unwrap();
    assert!(frames[0].is_error() && !frames[0].is_remote());
    assert_eq!(n.finish_transmit("CAN0", 0).unwrap(), Status::Success);
}

#[test]
fn channel_settings_by_family() {
    let mut cfg = ChannelConfig::new(500_000);
    cfg.set_data_bitrate(2_000_000);
    let fd = channel_settings(ZCanDeviceType::ZCAN_USBCANFD_200U, false, Some(60_000_000), &cfg).unwrap();
    assert_eq!(
        fd,
        vec![
            ChannelSetting::Clock(60_000_000),
            ChannelSetting::Resistance(true),
            ChannelSetting::Protocol(ZCanChlType::CANFD_ISO),
            ChannelSetting::ArbitrationBitrate(500_000),
            ChannelSetting::DataBitrate(2_000_000),
        ]
    );
    let classic = channel_settings(ZCanDeviceType::ZCAN_USBCAN2, false, None, &ChannelConfig::new(250_000)).unwrap();
    assert_eq!(classic, vec![ChannelSetting::Bitrate(250_000)]);
    let derived = channel_settings(ZCanDeviceType::ZCAN_USBCAN2, true, None, &ChannelConfig::new(250_000)).unwrap();
    assert!(derived.is_empty());
    let mut can_only = ChannelConfig::new(500_000);
    can_only.add_other(CHANNEL_TYPE, ZCanChlType::CAN);
    can_only.set_resistance(false);
    let v = channel_settings(ZCanDeviceType::ZCAN_USBCANFD_800U, false, None, &can_only).unwrap();
    assert_eq!(
        v,
        vec![
            ChannelSetting::Resistance(false),
            ChannelSetting::Protocol(ZCanChlType::CAN),
            ChannelSetting::ArbitrationBitrate(500_000),
        ]
    );
    can_only.add_other(CHANNEL_TYPE, 1u8);
    assert!(matches!(
        channel_settings(ZCanDeviceType::ZCAN_USBCANFD_800U, false, None, &can_only),
        Err(CanError::TypeMismatch(_))
    ));
}

#[test]
fn library_paths_join_once() {
    assert_eq!(get_libpath("library", "libusbcan.so"), "library/libusbcan.so");
    assert_eq!(get_libpath("library/", "libusbcan.so"), "library/libusbcan.so");
    assert_eq!(get_libpath("", "libusbcan.so"), "libusbcan.so");
}

#[test]
fn nican_open_close_and_reset_outcomes() {
    let mut n = NiCan::new();
    let ctx = NiCanContext { handle: 9, filters: vec![], bitrate: 250_000, log_errors: false };
    assert!(matches!(n.finish_open("CAN0", -1, 0, ctx.clone()), Err(CanError::InitializeError(_))));
    assert!(matches!(n.finish_open("CAN0", 0, 5, ctx.clone()), Err(CanError::InitializeError(_))));
    assert!(n.bitrate("CAN0").is_err());
    n.finish_open("CAN0", 0, 0, ctx).unwrap();
    assert_eq!(n.bitrate("CAN0").unwrap(), 250_000);
    assert!(matches!(n.finish_reset("CAN0", -2), Err(CanError::OperationError(_))));
    assert!(matches!(n.finish_close("CAN0", -4), Err(CanError::OperationError(_))));
    assert!(matches!(n.bitrate("CAN0"), Err(CanError::ChannelNotOpened(_))));
    assert!(matches!(n.finish_close("CAN0", 0), Err(CanError::ChannelNotOpened(_))));
}
