use vstd::prelude::*;
use crate::error::CanError;

verus! {

/// Role of a LIN channel.
#[derive(Debug, Clone, Copy, PartialEq, Eq, Structural)]
pub enum ZLinMode {
    Slave,
    Master,
}

/// Kind of a received LIN record.
#[derive(Debug, Clone, Copy, PartialEq, Eq, Structural)]
pub enum ZLinDataType {
    TypeData,
    TypeError,
    TypeEvent,
}

/// LIN bus events.
#[derive(Debug, Clone, Copy, PartialEq, Eq, Structural)]
pub enum ZLinEventType {
    Wakeup,
    EnterSleep,
    ExitSleep,
}

/// LIN checksum variants.
#[derive(Debug, Clone, Copy, PartialEq, Eq, Structural)]
pub enum ZLinCheckSumMode {
    Classic,
    Enhance,
    Auto,
}

impl ZLinMode {
    pub fn try_from_code(value: u8) -> (r: Result<Self, CanError>)
        ensures
            value == 0 ==> r == Ok::<Self, CanError>(ZLinMode::Slave),
            value == 1 ==> r == Ok::<Self, CanError>(ZLinMode::Master),
            value > 1 ==> r matches Err(CanError::OtherError(_)),
    {
        match value {
            0 => Ok(ZLinMode::Slave),
            1 => Ok(ZLinMode::Master),
            _ => Err(CanError::other_error("parameter not supported")),
        }
    }

    pub fn code(self) -> (r: u8)
        ensures
            r == (if self == ZLinMode::Slave { 0u8 } else { 1u8 }),
    {
        match self {
            ZLinMode::Slave => 0,
            ZLinMode::Master => 1,
        }
    }
}

impl ZLinDataType {
    pub fn try_from_code(value: u8) -> (r: Result<Self, CanError>)
        ensures
            value == 0 ==> r == Ok::<Self, CanError>(ZLinDataType::TypeData),
            value == 1 ==> r == Ok::<Self, CanError>(ZLinDataType::TypeError),
            value == 2 ==> r == Ok::<Self, CanError>(ZLinDataType::TypeEvent),
            value > 2 ==> r matches Err(CanError::OtherError(_)),
    {
        match value {
            0 => Ok(ZLinDataType::TypeData),
            1 => Ok(ZLinDataType::TypeError),
            2 => Ok(ZLinDataType::TypeEvent),
            _ => Err(CanError::other_error("parameter not supported")),
        }
    }
}

impl ZLinEventType {
    /// The event of a received code: 0 wake-up, 1 enter sleep, 2 exit sleep.
    pub fn try_from_code(value: u8) -> (r: Result<Self, CanError>)
        ensures
            value == 0 ==> r == Ok::<Self, CanError>(ZLinEventType::Wakeup),
            value == 1 ==> r == Ok::<Self, CanError>(ZLinEventType::EnterSleep),
            value == 2 ==> r == Ok::<Self, CanError>(ZLinEventType::ExitSleep),
            value > 2 ==> r matches Err(CanError::OtherError(_)),
    {
        match value {
            0 => Ok(ZLinEventType::Wakeup),
            1 => Ok(ZLinEventType::EnterSleep),
            2 => Ok(ZLinEventType::ExitSleep),
            _ => Err(CanError::other_error("parameter not supported")),
        }
    }
}

impl ZLinCheckSumMode {
    /// The checksum mode of a received code: 0 classic, 1 enhanced, 2 automatic.
    pub fn try_from_code(value: u8) -> (r: Result<Self, CanError>)
        ensures
            value == 0 ==> r == Ok::<Self, CanError>(ZLinCheckSumMode::Classic),
            value == 1 ==> r == Ok::<Self, CanError>(ZLinCheckSumMode::Enhance),
            value == 2 ==> r == Ok::<Self, CanError>(ZLinCheckSumMode::Auto),
            value > 2 ==> r matches Err(CanError::OtherError(_)),
    {
        match value {
            0 => Ok(ZLinCheckSumMode::Classic),
            1 => Ok(ZLinCheckSumMode::Enhance),
            2 => Ok(ZLinCheckSumMode::Auto),
            _ => Err(CanError::other_error("parameter not supported")),
        }
    }
}

} // verus!
