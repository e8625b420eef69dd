use vstd::prelude::*;
use crate::error::CanError;

verus! {

/// The hardware families a device can belong to.
#[derive(Debug, Clone, Copy, PartialEq, Eq, Structural)]
#[allow(non_camel_case_types)]
pub enum ZCanDeviceType {
    ZCAN_USBCAN1,
    ZCAN_USBCAN2,
    ZCAN_USBCAN_4E_U,
    ZCAN_USBCAN_8E_U,
    ZCAN_USBCANFD_200U,
    ZCAN_USBCANFD_100U,
    ZCAN_USBCANFD_MINI,
    ZCAN_CLOUD,
    ZCAN_USBCANFD_800U,
}

/// Whether `v` is the numeric identifier of a known device type.
pub open spec fn is_device_code(v: u32) -> bool {
    v == 3 || v == 4 || v == 31 || v == 34 || v == 41 || v == 42 || v == 43 || v == 46 || v == 59
}

impl ZCanDeviceType {
    /// The vendor's numeric identifier of the device type.
    pub open spec fn spec_code(self) -> u32 {
        match self {
            ZCanDeviceType::ZCAN_USBCAN1 => 3,
            ZCanDeviceType::ZCAN_USBCAN2 => 4,
            ZCanDeviceType::ZCAN_USBCAN_4E_U => 31,
            ZCanDeviceType::ZCAN_USBCAN_8E_U => 34,
            ZCanDeviceType::ZCAN_USBCANFD_200U => 41,
            ZCanDeviceType::ZCAN_USBCANFD_100U => 42,
            ZCanDeviceType::ZCAN_USBCANFD_MINI => 43,
            ZCanDeviceType::ZCAN_CLOUD => 46,
            ZCanDeviceType::ZCAN_USBCANFD_800U => 59,
        }
    }

    pub fn code(self) -> (r: u32)
        ensures
            r == self.spec_code(),
    {
        match self {
            ZCanDeviceType::ZCAN_USBCAN1 => 3,
            ZCanDeviceType::ZCAN_USBCAN2 => 4,
            ZCanDeviceType::ZCAN_USBCAN_4E_U => 31,
            ZCanDeviceType::ZCAN_USBCAN_8E_U => 34,
            ZCanDeviceType::ZCAN_USBCANFD_200U => 41,
            ZCanDeviceType::ZCAN_USBCANFD_100U => 42,
            ZCanDeviceType::ZCAN_USBCANFD_MINI => 43,
            ZCanDeviceType::ZCAN_CLOUD => 46,
            ZCanDeviceType::ZCAN_USBCANFD_800U => 59,
        }
    }

    /// The device type with the given numeric identifier.
    pub fn try_from_code(value: u32) -> (r: Result<Self, CanError>)
        ensures
            r matches Ok(t) ==> t.spec_code() == value,
            r is Ok <==> is_device_code(value),
            r matches Err(e) ==> e is OtherError,
    {
        match value {
            3 => Ok(ZCanDeviceType::ZCAN_USBCAN1),
            4 => Ok(ZCanDeviceType::ZCAN_USBCAN2),
            31 => Ok(ZCanDeviceType::ZCAN_USBCAN_4E_U),
            34 => Ok(ZCanDeviceType::ZCAN_USBCAN_8E_U),
            41 => Ok(ZCanDeviceType::ZCAN_USBCANFD_200U),
            42 => Ok(ZCanDeviceType::ZCAN_USBCANFD_100U),
            43 => Ok(ZCanDeviceType::ZCAN_USBCANFD_MINI),
            46 => Ok(ZCanDeviceType::ZCAN_CLOUD),
            59 => Ok(ZCanDeviceType::ZCAN_USBCANFD_800U),
            _ => Err(CanError::other_error("device type not supported")),
        }
    }

    pub open spec fn spec_canfd_support(self) -> bool {
        match self {
            ZCanDeviceType::ZCAN_USBCANFD_200U
            | ZCanDeviceType::ZCAN_USBCANFD_100U
            | ZCanDeviceType::ZCAN_USBCANFD_MINI
            | ZCanDeviceType::ZCAN_USBCANFD_800U => true,
            _ => false,
        }
    }

    pub open spec fn spec_lin_support(self) -> bool {
        match self {
            ZCanDeviceType::ZCAN_USBCANFD_200U
            | ZCanDeviceType::ZCAN_USBCANFD_100U
            | ZCanDeviceType::ZCAN_USBCANFD_MINI => true,
            _ => false,
        }
    }

    pub open spec fn spec_cloud_support(self) -> bool {
        self == ZCanDeviceType::ZCAN_CLOUD
    }

    /// Whether a backend family handles devices of this type: all but the
    /// cloud device, which offers telemetry only.
    pub open spec fn spec_has_backend(self) -> bool {
        self != ZCanDeviceType::ZCAN_CLOUD
    }

    pub fn has_backend(self) -> (r: bool)
        ensures
            r == self.spec_has_backend(),
    {
        self != ZCanDeviceType::ZCAN_CLOUD
    }

    /// Whether the device type carries CAN-FD frames.
    pub fn canfd_support(self) -> (r: bool)
        ensures
            r == self.spec_canfd_support(),
    {
        match self {
            ZCanDeviceType::ZCAN_USBCANFD_200U
            | ZCanDeviceType::ZCAN_USBCANFD_100U
            | ZCanDeviceType::ZCAN_USBCANFD_MINI
            | ZCanDeviceType::ZCAN_USBCANFD_800U => true,
            _ => false,
        }
    }

    /// Whether the device type has LIN channels.
    pub fn lin_support(self) -> (r: bool)
        ensures
            r == self.spec_lin_support(),
    {
        match self {
            ZCanDeviceType::ZCAN_USBCANFD_200U
            | ZCanDeviceType::ZCAN_USBCANFD_100U
            | ZCanDeviceType::ZCAN_USBCANFD_MINI => true,
            _ => false,
        }
    }

    /// Whether the device type offers cloud telemetry.
    pub fn cloud_support(self) -> (r: bool)
        ensures
            r == self.spec_cloud_support(),
    {
        self == ZCanDeviceType::ZCAN_CLOUD
    }

    /// Whether the device type has a switchable termination resistor.
    pub fn has_resistance(self) -> (r: bool)
        ensures
            r == self.spec_canfd_support(),
    {
        self.canfd_support()
    }
}

/// The description of a derived (virtual) device with no hardware information
/// of its own.
#[derive(Debug, Default, Clone, Copy, PartialEq, Eq, Structural)]
pub struct DeriveInfo {
    pub canfd: bool,
    pub channels: u8,
}

/// Addresses a device parameter, by path or by numeric reference.
#[derive(Debug, Clone, Copy, PartialEq, Eq)]
pub enum CmdPath<'a> {
    Path(&'a str),
    Reference(u32),
}

impl<'a> CmdPath<'a> {
    pub fn new_path(path: &'a str) -> (r: Self)
        ensures
            r == CmdPath::Path(path),
    {
        CmdPath::Path(path)
    }

    pub fn new_reference(value: u32) -> (r: Self)
        ensures
            r == CmdPath::<'a>::Reference(value),
    {
        CmdPath::Reference(value)
    }

    /// The path, or `None` for a reference.
    pub fn get_path(&self) -> (r: Option<&'a str>)
        ensures
            match *self {
                CmdPath::Path(p) => r == Some(p),
                CmdPath::Reference(_) => r is None,
            },
    {
        match *self {
            CmdPath::Path(p) => Some(p),
            CmdPath::Reference(_) => None,
        }
    }

    /// The reference, or `None` for a path.
    pub fn get_reference(&self) -> (r: Option<u32>)
        ensures
            match *self {
                CmdPath::Path(_) => r is None,
                CmdPath::Reference(v) => r == Some(v),
            },
    {
        match *self {
            CmdPath::Path(_) => None,
            CmdPath::Reference(v) => Some(v),
        }
    }
}

} // verus!
