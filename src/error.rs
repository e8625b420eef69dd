use vstd::prelude::*;
use vstd::string::StringExecFns;

verus! {

/// Failures reported by devices, channels and configuration lookups.
#[derive(Debug, Clone, PartialEq, Eq)]
pub enum CanError {
    /// A device or channel could not be opened or configured.
    InitializeError(String),
    /// A runtime call into the backend failed; the message carries its status code.
    OperationError(String),
    /// The channel named in the message has not been initialized.
    ChannelNotOpened(String),
    /// The device has not been opened.
    DeviceNotOpened,
    /// A receive ran past its deadline without data.
    ChannelTimeout(String),
    /// The attached backend does not implement the capability.
    NotSupportedError,
    /// A configuration property was fetched under a type other than the stored one.
    TypeMismatch(String),
    /// Any other failure, with a description.
    OtherError(String),
}

impl CanError {
    pub fn other_error(msg: &str) -> (r: CanError)
        ensures
            r is OtherError,
            r->OtherError_0@ == msg@,
    {
        CanError::OtherError(msg.to_owned())
    }

    pub fn device_not_opened() -> (r: CanError)
        ensures
            r is DeviceNotOpened,
    {
        CanError::DeviceNotOpened
    }

    /// The channel named `channel` (a channel number, or a backend's channel name)
    /// has not been initialized.
    pub fn channel_not_opened(channel: &str) -> (r: CanError)
        ensures
            r is ChannelNotOpened,
            r->ChannelNotOpened_0@ == "channel: "@ + channel@ + " is not opened"@,
    {
        let mut msg = String::from_str("channel: ");
        msg.append(channel);
        msg.append(" is not opened");
        CanError::ChannelNotOpened(msg)
    }

    /// The `kind` channel (CAN or LIN) numbered `channel` has not been initialized.
    pub fn numbered_channel_not_opened(kind: &str, channel: u8) -> (r: CanError)
        ensures
            r is ChannelNotOpened,
    {
        let mut msg = String::from_str(kind);
        msg.append(" channel: ");
        let number = channel.to_string();
        msg.append(number.as_str());
        msg.append(" is not opened");
        CanError::ChannelNotOpened(msg)
    }

    pub fn channel_timeout(channel: &str) -> (r: CanError)
        ensures
            r is ChannelTimeout,
            r->ChannelTimeout_0@ == "channel: "@ + channel@ + " receive timeout"@,
    {
        let mut msg = String::from_str("channel: ");
        msg.append(channel);
        msg.append(" receive timeout");
        CanError::ChannelTimeout(msg)
    }

    pub fn type_mismatch(name: &str) -> (r: CanError)
        ensures
            r is TypeMismatch,
            r->TypeMismatch_0@ == "type mismatched for `"@ + name@ + "`"@,
    {
        let mut msg = String::from_str("type mismatched for `");
        msg.append(name);
        msg.append("`");
        CanError::TypeMismatch(msg)
    }

    /// A short description of the error, for display.
    pub fn message(&self) -> (r: String)
        ensures
            r@ == match self {
                CanError::InitializeError(m) => "initialize error: "@ + m@,
                CanError::OperationError(m) => "operation error: "@ + m@,
                CanError::ChannelNotOpened(m) => m@,
                CanError::DeviceNotOpened => "device is not opened"@,
                CanError::ChannelTimeout(m) => m@,
                CanError::NotSupportedError => "method not supported"@,
                CanError::TypeMismatch(m) => m@,
                CanError::OtherError(m) => m@,
            },
    {
        match self {
            CanError::InitializeError(m) => String::from_str("initialize error: ").concat(m.as_str()),
            CanError::OperationError(m) => String::from_str("operation error: ").concat(m.as_str()),
            CanError::ChannelNotOpened(m) => m.clone(),
            CanError::DeviceNotOpened => String::from_str("device is not opened"),
            CanError::ChannelTimeout(m) => m.clone(),
            CanError::NotSupportedError => String::from_str("method not supported"),
            CanError::TypeMismatch(m) => m.clone(),
            CanError::OtherError(m) => m.clone(),
        }
    }
}

} // verus!
