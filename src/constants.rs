use vstd::prelude::*;

verus! {

/// Device property: directory of the vendor libraries (`String`).
pub const LIBPATH: &'static str = "libpath";
/// Device property: the device type (`ZCanDeviceType`).
pub const DEVICE_TYPE: &'static str = "device_type";
/// Device property: the device index (`u32`).
pub const DEVICE_INDEX: &'static str = "device_index";
/// Device property: the descriptor of a derived device (`DeriveInfo`).
pub const DERIVE_INFO: &'static str = "derive_info";
/// Channel property: the channel protocol variant (`ZCanChlType`).
pub const CHANNEL_TYPE: &'static str = "channel_type";
/// Channel property: the channel work mode (`ZCanChlMode`).
pub const CHANNEL_MODE: &'static str = "channel_mode";
/// Channel property: acceptance code (`u32`).
pub const ACC_CODE: &'static str = "acc_code";
/// Channel property: acceptance mask (`u32`).
pub const ACC_MASK: &'static str = "acc_mask";
/// Channel property: acceptance filters (`Vec<CanFilter>`).
pub const FILTERS: &'static str = "filters";
/// Channel property: whether bus errors are logged (`bool`).
pub const LOG_ERROR: &'static str = "log_error";

/// Timeout handed to a backend when the caller gives none: wait indefinitely.
pub const WAIT_FOREVER: u32 = 0xffff_ffff;

} // verus!
