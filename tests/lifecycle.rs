use std::cell::RefCell;
use std::rc::Rc;

use rs_can::api::{
    ZCloudApi, ZCanApi, ZCanChlCfg, ZCanChlError, ZCanChlStatus, ZCanFrameType, ZDeviceApi, ZLinApi,
};
use rs_can::bitrate::{BitrateCtx, BitrateTables, TimingRecord};
use rs_can::builder::{ChannelConfig, DeviceBuilder};
use rs_can::constants::{DERIVE_INFO, DEVICE_INDEX, DEVICE_TYPE, LIBPATH};
use rs_can::context::{ZChannelContext, ZDeviceContext, ZDeviceInfo};
use rs_can::device::{DeriveInfo, ZCanDeviceType};
use rs_can::driver::{Device, ZCan, ZCloud, ZDriver};
use rs_can::error::CanError;
use rs_can::frame::{CanDirect, CanMessage, CanType};

/// A backend that records every call it gets.
struct Recorder {
    calls: Rc<RefCell<Vec<String>>>,
    next_handle: RefCell<u32>,
    pending: u32,
    delivered: usize,
    fail_reset_of: Option<u8>,
}

impl Recorder {
    fn new(pending: u32, delivered: usize) -> Self {
        Recorder {
            calls: Rc::new(RefCell::new(Vec::new())),
            next_handle: RefCell::new(100),
            pending,
            delivered,
            fail_reset_of: None,
        }
    }

    fn log(&self, s: String) {
        self.calls.borrow_mut().push(s);
    }
}

impl ZDeviceApi for Recorder {
    fn open(&self, context: &mut ZDeviceContext) -> Result<(), CanError> {
        self.log("open".to_string());
        context.dev_hdl = Some(1);
        Ok(())
    }

    fn close(&self, _context: &ZDeviceContext) -> Result<(), CanError> {
        self.log("close".to_string());
        Err(CanError::OperationError("close failed".to_string()))
    }

    fn read_device_info(&self, _context: &ZDeviceContext) -> Result<ZDeviceInfo, CanError> {
        self.log("info".to_string());
        Ok(ZDeviceInfo {
            hwv: 1,
            fwv: 1,
            drv: 1,
            api: 1,
            irq: 0,
            chn: 2,
            sn: "SN1".to_string(),
            id: "USBCAN-II".to_string(),
        })
    }
}

impl ZCanApi for Recorder {
    fn init_can_chl(&self, context: &mut ZChannelContext, _cfg: &ZCanChlCfg) -> Result<(), CanError> {
        let mut h = self.next_handle.borrow_mut();
        *h += 1;
        context.chl_hdl = Some(*h);
        self.log(format!("init {} {}", context.channel, *h));
        Ok(())
    }

    fn reset_can_chl(&self, context: &ZChannelContext) -> Result<(), CanError> {
        self.log(format!("reset {} {}", context.channel, context.chl_hdl.unwrap_or(0)));
        if self.fail_reset_of == Some(context.channel) {
            return Err(CanError::OperationError("reset failed".to_string()));
        }
        Ok(())
    }

    fn read_can_chl_status(&self, _context: &ZChannelContext) -> Result<ZCanChlStatus, CanError> {
        self.log("status".to_string());
        Ok(ZCanChlStatus::default())
    }

    fn read_can_chl_error(&self, _context: &ZChannelContext) -> Result<ZCanChlError, CanError> {
        self.log("error".to_string());
        Ok(ZCanChlError::default())
    }

    fn clear_can_buffer(&self, _context: &ZChannelContext) -> Result<(), CanError> {
        self.log("clear".to_string());
        Ok(())
    }

    fn get_can_num(&self, _context: &ZChannelContext, can_type: ZCanFrameType) -> Result<u32, CanError> {
        self.log("num".to_string());
        match can_type {
            ZCanFrameType::CAN => Ok(self.pending),
            _ => Ok(0),
        }
    }

    fn receive_can(&self, _context: &ZChannelContext, size: u32, _timeout: u32) -> Result<Vec<CanMessage>, CanError> {
        self.log(format!("receive {}", size));
        let mut out = Vec::new();
        for i in 0..self.delivered {
            let mut m = CanMessage::new(0x100 + i as u32, false, &[i as u8]).unwrap();
            m.set_timestamp(Some(5));
            out.push(m);
        }
        Ok(out)
    }

    fn transmit_can(&self, _context: &ZChannelContext, frames: Vec<CanMessage>) -> Result<u32, CanError> {
        self.log(format!("transmit {}", frames.len()));
        Ok(frames.len() as u32 + 5)
    }
}

impl ZLinApi for Recorder {}

impl ZCloudApi for Recorder {}

fn table() -> BitrateTables {
    let rec = TimingRecord { tseg1: 13, tseg2: 2, sjw: 2, smp: 0, brp: 5 };
    let ctx = BitrateCtx { bitrate: vec![(500_000, rec)], data_bitrate: None, clock: Some(60_000_000) };
    let mut t = BitrateTables::new();
    t.add(ZCanDeviceType::ZCAN_USBCAN2.code(), ctx).unwrap();
    t
}

fn opened(api: Recorder) -> ZDriver<Recorder> {
    let mut d = ZDriver::new(api, "library".to_string(), ZCanDeviceType::ZCAN_USBCAN2, 0, None, table());
    d.open().unwrap();
    d
}

#[test]
fn receive_on_uninitialized_channel_fails_before_backend_call() {
    let api = Recorder::new(3, 3);
    let log = api.calls.clone();
    let log = api.calls.clone();
    let mut d = opened(api);
    let calls_before = log.borrow().len();
    let r = d.receive(1, None);
    assert!(matches!(r, Err(CanError::ChannelNotOpened(_))));
    assert_eq!(log.borrow().len(), calls_before);
}

#[test]
fn operations_on_unopened_device_fail() {
    let api = Recorder::new(0, 0);
    let log = api.calls.clone();
    let mut d = ZDriver::new(api, "library".to_string(), ZCanDeviceType::ZCAN_USBCAN2, 0, None, table());
    assert!(matches!(d.receive(0, None), Err(CanError::DeviceNotOpened)));
    assert!(matches!(d.device_info(), Err(CanError::DeviceNotOpened)));
    assert!(log.borrow().is_empty());
}

#[test]
fn short_batched_receive_returns_what_was_delivered() {
    let api = Recorder::new(10, 3);
    let log = api.calls.clone();
    let log = api.calls.clone();
    let mut d = opened(api);
    d.init_can_chl(1, &ChannelConfig::new(500_000)).unwrap();
    let frames = d.receive_can(1, 10, Some(100)).unwrap();
    assert_eq!(frames.len(), 3);
    for f in &frames {
        assert_eq!(f.channel(), 1);
        assert_eq!(f.direct, CanDirect::Receive);
        assert_eq!(f.timestamp(), 5);
    }
    let all = d.receive(1, None).unwrap();
    assert_eq!(all.len(), 3);
}

#[test]
fn reinit_resets_prior_handle_first() {
    let api = Recorder::new(0, 0);
    let log = api.calls.clone();
    let log = api.calls.clone();
    let mut d = opened(api);
    d.init_can_chl(0, &ChannelConfig::new(500_000)).unwrap();
    d.init_can_chl(0, &ChannelConfig::new(500_000)).unwrap();
    let calls = log.borrow().clone();
    let tail: Vec<&str> = calls.iter().skip(2).map(|s| s.as_str()).collect();
    assert_eq!(tail, vec!["init 0 101", "reset 0 101", "init 0 102"]);
    assert_eq!(d.opened_channels(), vec![0]);
    assert_eq!(d.can_handler(0).unwrap().chl_hdl, Some(102));
}

#[test]
fn init_rejects_unconfigured_bitrate_and_leaves_channel_closed() {
    let api = Recorder::new(0, 0);
    let log = api.calls.clone();
    let log = api.calls.clone();
    let mut d = opened(api);
    let r = d.init_can_chl(0, &ChannelConfig::new(250_000));
    assert!(matches!(r, Err(CanError::OtherError(_))));
    assert!(d.opened_channels().is_empty());
    assert!(matches!(d.init_can_chl(5, &ChannelConfig::new(500_000)), Err(CanError::OtherError(_))));
}

#[test]
fn close_resets_every_channel_even_when_one_fails() {
    let mut api = Recorder::new(0, 0);
    api.fail_reset_of = Some(0);
    let log = api.calls.clone();
    let mut d = opened(api);
    d.init_can_chl(0, &ChannelConfig::new(500_000)).unwrap();
    d.init_can_chl(1, &ChannelConfig::new(500_000)).unwrap();
    d.close();
    let calls = log.borrow().clone();
    assert!(calls.contains(&"reset 0 101".to_string()));
    assert!(calls.contains(&"reset 1 102".to_string()));
    assert_eq!(calls.last().unwrap(), "close");
    assert!(d.handler.is_none());
    assert!(matches!(d.device_info(), Err(CanError::DeviceNotOpened)));
    let n = log.borrow().len();
    d.close();
    assert_eq!(log.borrow().len(), n);
}

#[test]
fn reset_channel_then_operations_fail() {
    let api = Recorder::new(0, 0);
    let log = api.calls.clone();
    let log = api.calls.clone();
    let mut d = opened(api);
    d.init_can_chl(1, &ChannelConfig::new(500_000)).unwrap();
    assert!(d.clear_can_buffer(1).is_ok());
    assert!(d.read_can_chl_status(1).is_ok());
    d.reset_can_chl(1).unwrap();
    assert!(matches!(d.read_can_chl_error(1), Err(CanError::ChannelNotOpened(_))));
    assert!(matches!(d.reset_can_chl(1), Err(CanError::ChannelNotOpened(_))));
    assert!(d.is_closed());
}

#[test]
fn transmit_count_is_capped_and_classes_dispatch() {
    let api = Recorder::new(0, 0);
    let log = api.calls.clone();
    let log = api.calls.clone();
    let mut d = opened(api);
    d.init_can_chl(0, &ChannelConfig::new(500_000)).unwrap();
    let m = CanMessage::new(0x123, false, &[1, 2, 3]).unwrap();
    assert_eq!(d.transmit_can(0, vec![m.clone(), m.clone()]).unwrap(), 2);
    assert!(d.transmit(m, None).is_ok());
    let fd = CanMessage::new(0x123, false, &[0u8; 12]).unwrap();
    assert!(matches!(d.transmit(fd, None), Err(CanError::NotSupportedError)));
    let mut xl = CanMessage::new(0x1, false, &[]).unwrap();
    xl.can_type = CanType::CanXl;
    assert!(matches!(d.transmit(xl, None), Err(CanError::NotSupportedError)));
}

#[test]
fn lin_is_not_supported_on_classic_devices() {
    let api = Recorder::new(0, 0);
    let log = api.calls.clone();
    let log = api.calls.clone();
    let mut d = opened(api);
    let cfg = rs_can::api::ZLinChlCfg { mode: 1, max_length: 8, baud_rate: 19_200 };
    assert!(matches!(d.init_lin_chl(0, &cfg), Err(CanError::NotSupportedError)));
    assert!(matches!(d.lin_handler(0), Err(CanError::ChannelNotOpened(_))));
}

#[test]
fn build_opens_device_and_initializes_channels() {
    let mut b = DeviceBuilder::new();
    b.add_other(LIBPATH, "library".to_string());
    b.add_other(DEVICE_TYPE, ZCanDeviceType::ZCAN_USBCAN2);
    b.add_other(DEVICE_INDEX, 0u32);
    b.add_config(0, ChannelConfig::new(500_000));
    b.add_config(1, ChannelConfig::new(500_000));
    let api = Recorder::new(0, 0);
    let log = api.calls.clone();
    let d = b.build(api, table()).unwrap();
    assert_eq!(d.opened_channels(), vec![0, 1]);
    assert_eq!(log.borrow().iter().filter(|c| c.starts_with("init")).count(), 2);
    assert_eq!(d.device_type(), ZCanDeviceType::ZCAN_USBCAN2);
    assert_eq!(d.device_index(), 0);
}

#[test]
fn build_with_derive_info_uses_it() {
    let mut b = DeviceBuilder::new();
    b.add_other(LIBPATH, "library".to_string());
    b.add_other(DEVICE_TYPE, ZCanDeviceType::ZCAN_USBCAN2);
    b.add_other(DEVICE_INDEX, 0u32);
    b.add_other(DERIVE_INFO, DeriveInfo { canfd: false, channels: 1 });
    let api = Recorder::new(0, 0);
    let log = api.calls.clone();
    let d = b.build(api, table()).unwrap();
    assert!(d.is_derive_device());
    assert_eq!(d.device_info().unwrap().can_channels(), 1);
    assert!(!log.borrow().contains(&"info".to_string()));
}

#[test]
fn build_fails_without_required_properties() {
    let mut b = DeviceBuilder::new();
    b.add_other(DEVICE_TYPE, ZCanDeviceType::ZCAN_USBCAN2);
    b.add_other(DEVICE_INDEX, 0u32);
    assert!(matches!(b.build(Recorder::new(0, 0), table()), Err(CanError::OtherError(_))));

    let mut b = DeviceBuilder::new();
    b.add_other(LIBPATH, "library".to_string());
    b.add_other(DEVICE_TYPE, 4u32);
    b.add_other(DEVICE_INDEX, 0u32);
    assert!(matches!(b.build(Recorder::new(0, 0), table()), Err(CanError::TypeMismatch(_))));
}

#[test]
fn build_fails_when_a_channel_fails() {
    let mut b = DeviceBuilder::new();
    b.add_other(LIBPATH, "library".to_string());
    b.add_other(DEVICE_TYPE, ZCanDeviceType::ZCAN_USBCAN2);
    b.add_other(DEVICE_INDEX, 0u32);
    b.add_config(0, ChannelConfig::new(500_000));
    b.add_config(1, ChannelConfig::new(125_000));
    assert!(b.build(Recorder::new(0, 0), table()).is_err());
}

#[test]
fn generic_calling_code_through_capability_traits() {
    fn drain<D: Device>(d: &mut D, channel: u8) -> Result<usize, CanError> {
        Ok(d.receive(channel, Some(10))?.len())
    }
    fn setup<D: ZCan>(d: &mut D) -> Result<(), CanError> {
        d.init_can_chl(0, &ChannelConfig::new(500_000))
    }
    let api = Recorder::new(2, 2);
    let log = api.calls.clone();
    let log = api.calls.clone();
    let mut d = opened(api);
    setup(&mut d).unwrap();
    assert_eq!(drain(&mut d, 0).unwrap(), 2);
    assert!(matches!(ZCan::receive_canfd(&mut d, 0, 1, None), Err(CanError::NotSupportedError)));
    assert!(matches!(d.connect_server("user", "pass"), Err(CanError::NotSupportedError)));
    assert!(!Device::is_closed(&d));
    Device::shutdown(&mut d);
    assert!(Device::is_closed(&d));
}

#[test]
fn close_resets_as_many_channels_as_initialized() {
    let api = Recorder::new(0, 0);
    let log = api.calls.clone();
    let log = api.calls.clone();
    let mut d = opened(api);
    d.init_can_chl(0, &ChannelConfig::new(500_000)).unwrap();
    d.init_can_chl(1, &ChannelConfig::new(500_000)).unwrap();
    let before = log.borrow().len();
    d.close();
    let calls = log.borrow();
    let resets = calls[before..].iter().filter(|c| c.starts_with("reset")).count();
    assert_eq!(resets, 2);
}

#[test]
fn opening_an_opened_device_is_refused_and_changes_nothing() {
    let api = Recorder::new(0, 0);
    let log = api.calls.clone();
    let log = api.calls.clone();
    let mut d = opened(api);
    d.init_can_chl(0, &ChannelConfig::new(500_000)).unwrap();
    let n = log.borrow().len();
    assert!(matches!(d.open(), Err(CanError::OtherError(_))));
    assert_eq!(d.opened_channels(), vec![0]);
    assert_eq!(log.borrow().len(), n);
}

#[test]
fn device_type_without_backend_is_refused() {
    let api = Recorder::new(0, 0);
    let log = api.calls.clone();
    let mut d = ZDriver::new(api, "library".to_string(), ZCanDeviceType::ZCAN_CLOUD, 0, None, table());
    assert!(matches!(d.open(), Err(CanError::NotSupportedError)));
    assert!(log.borrow().is_empty());
}

#[test]
fn failed_reset_of_prior_context_leaves_channel_uninitialized() {
    let mut api = Recorder::new(0, 0);
    api.fail_reset_of = Some(0);
    let log = api.calls.clone();
    let mut d = opened(api);
    d.init_can_chl(0, &ChannelConfig::new(500_000)).unwrap();
    assert!(matches!(d.init_can_chl(0, &ChannelConfig::new(500_000)), Err(CanError::OperationError(_))));
    assert!(d.opened_channels().is_empty());
}

#[test]
fn status_reads_and_timestamps_follow_the_backend() {
    let api = Recorder::new(0, 0);
    let log = api.calls.clone();
    let mut d = opened(api);
    assert!(matches!(d.read_can_chl_status(0), Err(CanError::ChannelNotOpened(_))));
    assert!(matches!(d.timestamp(0), Err(CanError::ChannelNotOpened(_))));
    d.init_can_chl(0, &ChannelConfig::new(500_000)).unwrap();
    assert_eq!(d.read_can_chl_status(0).unwrap(), ZCanChlStatus::default());
    assert_eq!(d.timestamp(0).unwrap(), 0);
    assert!(log.borrow().contains(&"status".to_string()));
    assert!(matches!(d.clear_lin_buffer(0), Err(CanError::ChannelNotOpened(_))));
}

#[test]
fn close_hands_back_every_teardown_failure() {
    let mut api = Recorder::new(0, 0);
    api.fail_reset_of = Some(1);
    let mut d = opened(api);
    d.init_can_chl(0, &ChannelConfig::new(500_000)).unwrap();
    d.init_can_chl(1, &ChannelConfig::new(500_000)).unwrap();
    let failures = d.close();
    assert_eq!(failures.len(), 2);
    assert_eq!(failures[0].message(), "operation error: reset failed");
    assert_eq!(failures[1].message(), "operation error: close failed");
    assert!(d.close().is_empty());
}
