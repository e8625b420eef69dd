use vstd::prelude::*;
use crate::bitrate::{
    find_timing, get_fd_set, lookup, TimingRecord, record_fits, resolve, BitrateCtx, ZCanChlMode, ZCanChlType,
    ZCanFdChlCfgInner, ZCanFdChlCfgSet,
};
use crate::builder::ChannelConfig;
use crate::config::{OtherType, OtherValue};
use crate::constants::{ACC_CODE, ACC_MASK, CHANNEL_MODE, CHANNEL_TYPE};
use crate::device::ZCanDeviceType;
use crate::context::{ZChannelContext, ZDeviceContext, ZDeviceInfo};
use crate::error::CanError;
use crate::frame::CanMessage;

verus! {

/// Which receive queue a pending-frame count refers to.
#[derive(Debug, Clone, Copy, PartialEq, Eq, Structural)]
pub enum ZCanFrameType {
    CAN,
    CANFD,
    ALL,
}

/// Controller status registers of a CAN channel.
#[derive(Debug, Default, Clone, Copy, PartialEq, Eq, Structural)]
pub struct ZCanChlStatus {
    pub err_interrupt: u8,
    pub reg_mode: u8,
    pub reg_status: u8,
    pub reg_al_capture: u8,
    pub reg_ec_capture: u8,
    pub reg_ew_limit: u8,
    pub reg_re_counter: u8,
    pub reg_te_counter: u8,
}

/// Error information of a CAN channel.
#[derive(Debug, Default, Clone, Copy, PartialEq, Eq, Structural)]
pub struct ZCanChlError {
    pub error_code: u32,
    pub passive_error: u8,
    pub rx_error_counter: u8,
    pub tx_error_counter: u8,
}

/// The channel configuration handed to a backend when a CAN channel is initialized.
#[derive(Debug, Clone, Copy, PartialEq, Eq, Structural)]
pub enum ZCanChlCfg {
    /// A classic CAN channel: its timing set, mode and acceptance filter.
    Can { timing: ZCanFdChlCfgSet, mode: u8, acc_code: u32, acc_mask: u32 },
    /// A CAN-FD channel: clock, mode word and timing sets of both phases.
    CanFd { cfg: ZCanFdChlCfgInner, acc_code: Option<u32>, acc_mask: Option<u32> },
}

/// Whether fetching `name` as a `T` from a bag with map `m` succeeds.
pub open spec fn prop_ok<T: OtherType>(m: Map<Seq<char>, OtherValue>, name: Seq<char>) -> bool {
    !m.dom().contains(name) || m[name].spec_tag() == T::spec_tag()
}

/// Whether a channel of a device of type `dev_type` can be configured from `cfg`
/// with the timing table `ctx`.
pub open spec fn chl_cfg_ok(dev_type: ZCanDeviceType, ctx: &BitrateCtx, cfg: &ChannelConfig) -> bool {
    let m = cfg.others@;
    &&& prop_ok::<ZCanChlMode>(m, CHANNEL_MODE@)
    &&& prop_ok::<u32>(m, ACC_CODE@)
    &&& prop_ok::<u32>(m, ACC_MASK@)
    &&& if dev_type.spec_canfd_support() {
        &&& prop_ok::<ZCanChlType>(m, CHANNEL_TYPE@)
        &&& ctx.clock is Some
        &&& match resolve(ctx.bitrate@, ctx.data_rows(), cfg.bitrate, cfg.dbitrate) {
            Some(p) => record_fits(p.0) && record_fits(p.1),
            None => false,
        }
    } else {
        match lookup(ctx.bitrate@, cfg.bitrate) {
            Some(a) => record_fits(a),
            None => false,
        }
    }
}

/// The timing set holding the fields of `t`.
pub open spec fn set_of(t: TimingRecord) -> ZCanFdChlCfgSet {
    ZCanFdChlCfgSet { tseg1: t.tseg1 as u8, tseg2: t.tseg2 as u8, sjw: t.sjw as u8, smp: t.smp as u8, brp: t.brp as u16 }
}

/// The `u32` property `name` of the bag map `m`, if one is stored.
pub open spec fn u32_prop(m: Map<Seq<char>, OtherValue>, name: Seq<char>) -> Option<u32> {
    if m.dom().contains(name) {
        match m[name] {
            OtherValue::U32(v) => Some(v),
            _ => None,
        }
    } else {
        None
    }
}

/// The channel work mode stored in the bag map `m`; normal when none is.
pub open spec fn mode_prop(m: Map<Seq<char>, OtherValue>) -> ZCanChlMode {
    if m.dom().contains(CHANNEL_MODE@) {
        match m[CHANNEL_MODE@] {
            OtherValue::ChannelMode(v) => v,
            _ => ZCanChlMode::Normal,
        }
    } else {
        ZCanChlMode::Normal
    }
}

/// The protocol variant stored in the bag map `m`; ISO CAN-FD when none is.
pub open spec fn fd_protocol_prop(m: Map<Seq<char>, OtherValue>) -> ZCanChlType {
    if m.dom().contains(CHANNEL_TYPE@) {
        match m[CHANNEL_TYPE@] {
            OtherValue::ChannelType(v) => v,
            _ => ZCanChlType::CANFD_ISO,
        }
    } else {
        ZCanChlType::CANFD_ISO
    }
}

/// The backend configuration of a channel of a `dev_type` device configured by
/// `cfg` with the timing table `ctx`, when `chl_cfg_ok` holds. A CAN-FD device
/// gets the resolved timing pair, the table's clock, and a mode word of the
/// work mode's code plus 2 for non-ISO CAN-FD, with the stored acceptance code
/// and mask. A classic device gets the nominal rate's timing, the work mode's
/// code, and the acceptance code (0 when unset) and mask (all ones when unset).
pub open spec fn chl_cfg_of(dev_type: ZCanDeviceType, ctx: BitrateCtx, cfg: ChannelConfig) -> ZCanChlCfg {
    let m = cfg.others@;
    let mode = mode_prop(m);
    if dev_type.spec_canfd_support() {
        let p = resolve(ctx.bitrate@, ctx.data_rows(), cfg.bitrate, cfg.dbitrate)->Some_0;
        ZCanChlCfg::CanFd {
            cfg: ZCanFdChlCfgInner {
                clk: ctx.clock->Some_0,
                mode: (mode.spec_code() as u32 + (if fd_protocol_prop(m) == ZCanChlType::CANFD_NON_ISO { 2u32 } else { 0u32 })) as u32,
                aset: set_of(p.0),
                dset: set_of(p.1),
            },
            acc_code: u32_prop(m, ACC_CODE@),
            acc_mask: u32_prop(m, ACC_MASK@),
        }
    } else {
        ZCanChlCfg::Can {
            timing: set_of(lookup(ctx.bitrate@, cfg.bitrate)->Some_0),
            mode: mode.spec_code(),
            acc_code: match u32_prop(m, ACC_CODE@) { Some(c) => c, None => 0 },
            acc_mask: match u32_prop(m, ACC_MASK@) { Some(c) => c, None => 0xffff_ffff },
        }
    }
}

impl ZCanChlCfg {
    /// The backend configuration of a channel of a `dev_type` device: CAN-FD
    /// timing resolved from the table for CAN-FD devices, the nominal rate's
    /// timing for classic ones, and the channel's type, mode and filter properties.
    pub fn new(dev_type: ZCanDeviceType, ctx: &BitrateCtx, cfg: &ChannelConfig) -> (r: Result<Self, CanError>)
        requires
            cfg.wf(),
        ensures
            r is Ok <==> chl_cfg_ok(dev_type, ctx, cfg),
            r matches Ok(c) ==> c == chl_cfg_of(dev_type, *ctx, *cfg),
    {
        let mode = match cfg.get_other::<ZCanChlMode>(CHANNEL_MODE) {
            Ok(m) => match m {
                Some(m) => m,
                None => ZCanChlMode::Normal,
            },
            Err(e) => {
                return Err(e);
            },
        };
        let acc_code = cfg.get_other::<u32>(ACC_CODE)?;
        let acc_mask = cfg.get_other::<u32>(ACC_MASK)?;
        if dev_type.canfd_support() {
            let can_type = match cfg.get_other::<ZCanChlType>(CHANNEL_TYPE)? {
                Some(t) => t,
                None => ZCanChlType::CANFD_ISO,
            };
            let (aset, dset) = get_fd_set(cfg.bitrate(), cfg.dbitrate(), ctx)?;
            let clock = match ctx.clock {
                Some(c) => c,
                None => {
                    return Err(CanError::other_error("`clock` is not configured in file!"));
                },
            };
            let inner = ZCanFdChlCfgInner::new(can_type, mode, clock, aset, dset);
            Ok(ZCanChlCfg::CanFd { cfg: inner, acc_code, acc_mask })
        } else {
            let record = match find_timing(&ctx.bitrate, cfg.bitrate()) {
                Some(t) => t,
                None => {
                    return Err(CanError::other_error("bitrate is not configured in file!"));
                },
            };
            let timing = ZCanFdChlCfgSet::try_from_record(&record)?;
            Ok(ZCanChlCfg::Can {
                timing,
                mode: mode.code(),
                acc_code: match acc_code {
                    Some(c) => c,
                    None => 0,
                },
                acc_mask: match acc_mask {
                    Some(m) => m,
                    None => 0xffff_ffff,
                },
            })
        }
    }
}

/// A LIN channel configuration.
#[derive(Debug, Clone, Copy, PartialEq, Eq, Structural)]
pub struct ZLinChlCfg {
    /// 0 for slave, 1 for master.
    pub mode: u8,
    pub max_length: u8,
    pub baud_rate: u32,
}

/// Device lifecycle of a backend.
pub trait ZDeviceApi {
    /// Opens the device and stores the handle it gets in `context`.
    fn open(&self, context: &mut ZDeviceContext) -> Result<(), CanError>;

    fn close(&self, context: &ZDeviceContext) -> Result<(), CanError>;

    fn read_device_info(&self, context: &ZDeviceContext) -> Result<ZDeviceInfo, CanError>;

    fn is_online(&self, context: &ZDeviceContext) -> Result<bool, CanError> {
        Err(CanError::NotSupportedError)
    }
}

/// CAN data plane of a backend. Counts returned by the batched calls are what
/// the hardware accepted or delivered, which may be less than asked for.
pub trait ZCanApi {
    /// Initializes the channel of `context` with `cfg` and stores its handle in `context`.
    fn init_can_chl(&self, context: &mut ZChannelContext, cfg: &ZCanChlCfg) -> Result<(), CanError>;

    fn reset_can_chl(&self, context: &ZChannelContext) -> Result<(), CanError>;

    fn read_can_chl_status(&self, context: &ZChannelContext) -> Result<ZCanChlStatus, CanError>;

    fn read_can_chl_error(&self, context: &ZChannelContext) -> Result<ZCanChlError, CanError>;

    fn clear_can_buffer(&self, context: &ZChannelContext) -> Result<(), CanError>;

    fn get_can_num(&self, context: &ZChannelContext, can_type: ZCanFrameType) -> Result<u32, CanError>;

    fn receive_can(&self, context: &ZChannelContext, size: u32, timeout: u32) -> Result<Vec<CanMessage>, CanError>;

    fn transmit_can(&self, context: &ZChannelContext, frames: Vec<CanMessage>) -> Result<u32, CanError>;

    fn receive_canfd(&self, context: &ZChannelContext, size: u32, timeout: u32) -> Result<Vec<CanMessage>, CanError> {
        Err(CanError::NotSupportedError)
    }

    fn transmit_canfd(&self, context: &ZChannelContext, frames: Vec<CanMessage>) -> Result<u32, CanError> {
        Err(CanError::NotSupportedError)
    }
}

/// LIN data plane of a backend.
pub trait ZLinApi {
    fn init_lin_chl(&self, context: &mut ZChannelContext, cfg: &ZLinChlCfg) -> Result<(), CanError> {
        Err(CanError::NotSupportedError)
    }

    fn reset_lin_chl(&self, context: &ZChannelContext) -> Result<(), CanError> {
        Err(CanError::NotSupportedError)
    }

    fn clear_lin_buffer(&self, context: &ZChannelContext) -> Result<(), CanError> {
        Err(CanError::NotSupportedError)
    }

    fn get_lin_num(&self, context: &ZChannelContext) -> Result<u32, CanError> {
        Err(CanError::NotSupportedError)
    }
}

/// Cloud telemetry of a backend.
pub trait ZCloudApi {
    fn connect_server(&self, username: &str, password: &str) -> Result<(), CanError> {
        Err(CanError::NotSupportedError)
    }

    fn is_connected_server(&self) -> Result<bool, CanError> {
        Err(CanError::NotSupportedError)
    }

    fn disconnect_server(&self) -> Result<(), CanError> {
        Err(CanError::NotSupportedError)
    }
}

} // verus!
