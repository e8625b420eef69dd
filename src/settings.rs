use vstd::prelude::*;
use crate::api::prop_ok;
use crate::bitrate::ZCanChlType;
use crate::builder::ChannelConfig;
use crate::config::{OtherType, OtherValue};
use crate::constants::CHANNEL_TYPE;
use crate::device::ZCanDeviceType;
use crate::error::CanError;

verus! {

/// One device parameter written when a channel is set up by named parameters.
#[derive(Debug, Clone, Copy, PartialEq, Eq, Structural)]
pub enum ChannelSetting {
    /// Reference clock frequency of the device.
    Clock(u32),
    /// Termination resistor of the channel.
    Resistance(bool),
    /// Protocol variant of the channel.
    Protocol(ZCanChlType),
    /// Arbitration-phase bit rate of a CAN-FD channel.
    ArbitrationBitrate(u32),
    /// Data-phase bit rate of a CAN-FD channel.
    DataBitrate(u32),
    /// Bit rate of a classic channel.
    Bitrate(u32),
}

/// The protocol variant a channel of `dev_type` gets when none is configured.
pub open spec fn default_protocol(dev_type: ZCanDeviceType) -> ZCanChlType {
    if dev_type.spec_canfd_support() { ZCanChlType::CANFD_ISO } else { ZCanChlType::CAN }
}

/// The configured protocol variant of `cfg`, or the default.
pub open spec fn protocol_of(dev_type: ZCanDeviceType, cfg: ChannelConfig) -> ZCanChlType {
    if cfg.others@.dom().contains(CHANNEL_TYPE@) {
        match cfg.others@[CHANNEL_TYPE@] {
            OtherValue::ChannelType(t) => t,
            _ => default_protocol(dev_type),
        }
    } else {
        default_protocol(dev_type)
    }
}

/// The parameters written, in order, to set up a channel of a `dev_type` device
/// configured by `cfg`: the clock when the table gives one; the termination
/// resistor (on unless configured off) where the device has one; the protocol
/// variant except on USBCAN-I/II; then, on a CAN-FD device, the arbitration
/// bit rate and, for a CAN-FD protocol, the data bit rate (the nominal one when
/// none is configured); on a classic device that is not derived, the bit rate.
pub open spec fn settings_of(dev_type: ZCanDeviceType, is_derive: bool, clock: Option<u32>, cfg: ChannelConfig) -> Seq<ChannelSetting> {
    let protocol = protocol_of(dev_type, cfg);
    let clock_part = match clock {
        Some(c) => seq![ChannelSetting::Clock(c)],
        None => Seq::empty(),
    };
    let resistance_part = if dev_type.spec_canfd_support() {
        seq![ChannelSetting::Resistance(match cfg.resistance { Some(r) => r, None => true })]
    } else {
        Seq::empty()
    };
    let protocol_part = if dev_type == ZCanDeviceType::ZCAN_USBCAN1 || dev_type == ZCanDeviceType::ZCAN_USBCAN2 {
        Seq::empty()
    } else {
        seq![ChannelSetting::Protocol(protocol)]
    };
    let rate_part = if dev_type.spec_canfd_support() {
        let data = if protocol == ZCanChlType::CANFD_ISO || protocol == ZCanChlType::CANFD_NON_ISO {
            seq![ChannelSetting::DataBitrate(match cfg.dbitrate { Some(d) => d, None => cfg.bitrate })]
        } else {
            Seq::empty()
        };
        seq![ChannelSetting::ArbitrationBitrate(cfg.bitrate)] + data
    } else if !is_derive {
        seq![ChannelSetting::Bitrate(cfg.bitrate)]
    } else {
        Seq::empty()
    };
    clock_part + resistance_part + protocol_part + rate_part
}

/// The parameters to write to set up a channel of a `dev_type` device configured
/// by `cfg`; an error when the protocol variant was stored under another type.
pub fn channel_settings(dev_type: ZCanDeviceType, is_derive: bool, clock: Option<u32>, cfg: &ChannelConfig) -> (r: Result<Vec<ChannelSetting>, CanError>)
    requires
        cfg.wf(),
    ensures
        r is Ok <==> prop_ok::<ZCanChlType>(cfg.others@, CHANNEL_TYPE@),
        r matches Ok(v) ==> v@ == settings_of(dev_type, is_derive, clock, *cfg),
        r matches Err(e) ==> e is TypeMismatch,
{
    let protocol = match cfg.get_other::<ZCanChlType>(CHANNEL_TYPE)? {
        Some(t) => t,
        None => if dev_type.canfd_support() { ZCanChlType::CANFD_ISO } else { ZCanChlType::CAN },
    };
    proof {
        if cfg.others@.dom().contains(CHANNEL_TYPE@) {
            ZCanChlType::lemma_wrap_tag(protocol);
        }
    }
    let ghost s0 = settings_of(dev_type, is_derive, clock, *cfg);
    let mut out: Vec<ChannelSetting> = Vec::new();
    match clock {
        Some(c) => out.push(ChannelSetting::Clock(c)),
        None => {},
    }
    if dev_type.has_resistance() {
        let on = match cfg.resistance() {
            Some(r) => r,
            None => true,
        };
        out.push(ChannelSetting::Resistance(on));
    }
    if dev_type != ZCanDeviceType::ZCAN_USBCAN1 && dev_type != ZCanDeviceType::ZCAN_USBCAN2 {
        out.push(ChannelSetting::Protocol(protocol));
    }
    let bitrate = cfg.bitrate();
    if dev_type.canfd_support() {
        out.push(ChannelSetting::ArbitrationBitrate(bitrate));
        if protocol == ZCanChlType::CANFD_ISO || protocol == ZCanChlType::CANFD_NON_ISO {
            let d = match cfg.dbitrate() {
                Some(d) => d,
                None => bitrate,
            };
            out.push(ChannelSetting::DataBitrate(d));
        }
    } else if !is_derive {
        out.push(ChannelSetting::Bitrate(bitrate));
    }
    assert(out@ =~= s0);
    Ok(out)
}

} // verus!
