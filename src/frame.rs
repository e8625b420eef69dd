use vstd::prelude::*;

verus! {

/// Largest payload of a classic CAN frame.
pub const MAX_FRAME_SIZE: usize = 8;
/// Largest payload of a CAN-FD frame.
pub const MAX_FD_FRAME_SIZE: usize = 64;
/// Byte used to fill a backend's fixed data buffer past the payload.
pub const DEFAULT_PADDING: u8 = 0;
/// Largest 11-bit standard identifier.
pub const SFF_MASK: u32 = 0x7ff;
/// Largest 29-bit extended identifier.
pub const EFF_MASK: u32 = 0x1fff_ffff;

/// Frame class.
#[derive(Debug, Clone, Copy, PartialEq, Eq, Structural)]
pub enum CanType {
    Can,
    CanFd,
    /// Reserved; no frame of this class is ever built.
    CanXl,
}

/// Direction of a frame relative to the host.
#[derive(Debug, Clone, Copy, PartialEq, Eq, Structural)]
pub enum CanDirect {
    Transmit,
    Receive,
}

/// Payload limit of a frame class.
pub open spec fn class_limit(t: CanType) -> nat {
    match t {
        CanType::Can => MAX_FRAME_SIZE as nat,
        CanType::CanFd => MAX_FD_FRAME_SIZE as nat,
        CanType::CanXl => 0,
    }
}

/// Whether `id` fits the identifier format selected by `extended`.
pub open spec fn id_fits(id: u32, extended: bool) -> bool {
    if extended {
        id <= EFF_MASK
    } else {
        id <= SFF_MASK
    }
}

/// A vector holding the bytes of `data`.
pub fn copy_bytes(data: &[u8]) -> (r: Vec<u8>)
    ensures
        r@ == data@,
{
    let mut r: Vec<u8> = Vec::new();
    let mut i: usize = 0;
    while i < data.len()
        invariant
            i <= data@.len(),
            r@ == data@.subrange(0, i as int),
        decreases data@.len() - i,
    {
        r.push(data[i]);
        i = i + 1;
    }
    assert(r@ == data@);
    r
}

/// One CAN or CAN-FD message, independent of any wire format.
#[derive(Debug, Clone)]
pub struct CanMessage {
    /// Host-normalized timestamp in milliseconds.
    pub timestamp: u64,
    pub arbitration_id: u32,
    pub is_extended_id: bool,
    pub is_remote_frame: bool,
    pub is_error_frame: bool,
    pub channel: u8,
    /// Data length code: the payload length, or the requested length of a remote frame.
    pub length: usize,
    pub data: Vec<u8>,
    pub can_type: CanType,
    pub direct: CanDirect,
    pub bitrate_switch: bool,
    pub error_state_indicator: bool,
    /// Transmission mode (normal, single-shot, self-reception), backend-dependent.
    pub tx_mode: Option<u8>,
}

impl CanMessage {
    /// The frame invariant: payload within the class limit, identifier within
    /// its format, FD-only flags clear on classic frames.
    pub open spec fn wf(&self) -> bool {
        &&& self.can_type != CanType::CanXl
        &&& self.length <= class_limit(self.can_type)
        &&& id_fits(self.arbitration_id, self.is_extended_id)
        &&& if self.is_remote_frame {
            self.data@.len() == 0
        } else {
            self.data@.len() == self.length
        }
        &&& self.can_type == CanType::Can ==> !self.bitrate_switch && !self.error_state_indicator
    }

    /// The payload that goes on the wire: empty for a remote frame.
    pub open spec fn payload(&self) -> Seq<u8> {
        self.data@
    }

    /// A data frame carrying `data`; classic when it fits 8 bytes, CAN-FD when it
    /// fits 64. `None` when the payload or the identifier is too large.
    pub fn new(arbitration_id: u32, is_extended_id: bool, data: &[u8]) -> (r: Option<CanMessage>)
        ensures
            r is Some <==> (data@.len() <= MAX_FD_FRAME_SIZE && id_fits(arbitration_id, is_extended_id)),
            r matches Some(m) ==> {
                &&& m.wf()
                &&& m.data@ == data@
                &&& m.length == data@.len()
                &&& m.arbitration_id == arbitration_id
                &&& m.is_extended_id == is_extended_id
                &&& !m.is_remote_frame && !m.is_error_frame
                &&& m.can_type == (if data@.len() <= MAX_FRAME_SIZE { CanType::Can } else { CanType::CanFd })
                &&& m.direct == CanDirect::Transmit
                &&& m.timestamp == 0 && m.channel == 0
                &&& !m.bitrate_switch && !m.error_state_indicator
                &&& m.tx_mode is None
            },
    {
        let len = data.len();
        if len > MAX_FD_FRAME_SIZE {
            return None;
        }
        if is_extended_id {
            if arbitration_id > EFF_MASK {
                return None;
            }
        } else if arbitration_id > SFF_MASK {
            return None;
        }
        let can_type = if len <= MAX_FRAME_SIZE { CanType::Can } else { CanType::CanFd };
        Some(CanMessage {
            timestamp: 0,
            arbitration_id,
            is_extended_id,
            is_remote_frame: false,
            is_error_frame: false,
            channel: 0,
            length: len,
            data: copy_bytes(data),
            can_type,
            direct: CanDirect::Transmit,
            bitrate_switch: false,
            error_state_indicator: false,
            tx_mode: None,
        })
    }

    /// A classic remote frame requesting `length` bytes. `None` when `length`
    /// exceeds 8 or the identifier is too large.
    pub fn new_remote(arbitration_id: u32, is_extended_id: bool, length: usize) -> (r: Option<CanMessage>)
        ensures
            r is Some <==> (length <= MAX_FRAME_SIZE && id_fits(arbitration_id, is_extended_id)),
            r matches Some(m) ==> {
                &&& m.wf()
                &&& m.is_remote_frame && !m.is_error_frame
                &&& m.length == length
                &&& m.data@.len() == 0
                &&& m.arbitration_id == arbitration_id
                &&& m.is_extended_id == is_extended_id
                &&& m.can_type == CanType::Can
                &&& m.direct == CanDirect::Transmit
                &&& m.timestamp == 0 && m.channel == 0
                &&& m.tx_mode is None
            },
    {
        if length > MAX_FRAME_SIZE {
            return None;
        }
        if is_extended_id {
            if arbitration_id > EFF_MASK {
                return None;
            }
        } else if arbitration_id > SFF_MASK {
            return None;
        }
        Some(CanMessage {
            timestamp: 0,
            arbitration_id,
            is_extended_id,
            is_remote_frame: true,
            is_error_frame: false,
            channel: 0,
            length,
            data: Vec::new(),
            can_type: CanType::Can,
            direct: CanDirect::Transmit,
            bitrate_switch: false,
            error_state_indicator: false,
            tx_mode: None,
        })
    }

    pub fn set_channel(&mut self, channel: u8)
        ensures
            *final(self) == (CanMessage { channel, ..*old(self) }),
    {
        self.channel = channel;
    }

    /// Sets the timestamp; `None` clears it to zero.
    pub fn set_timestamp(&mut self, timestamp: Option<u64>)
        ensures
            *final(self) == (CanMessage {
                timestamp: match timestamp { Some(t) => t, None => 0 },
                ..*old(self)
            }),
    {
        self.timestamp = match timestamp {
            Some(t) => t,
            None => 0,
        };
    }

    pub fn set_direct(&mut self, direct: CanDirect)
        ensures
            *final(self) == (CanMessage { direct, ..*old(self) }),
    {
        self.direct = direct;
    }

    pub fn set_error_frame(&mut self, is_error_frame: bool)
        ensures
            *final(self) == (CanMessage { is_error_frame, ..*old(self) }),
    {
        self.is_error_frame = is_error_frame;
    }

    pub fn set_tx_mode(&mut self, tx_mode: u8)
        ensures
            *final(self) == (CanMessage { tx_mode: Some(tx_mode), ..*old(self) }),
    {
        self.tx_mode = Some(tx_mode);
    }

    /// Sets the bit-rate-switch flag; it only takes effect on a CAN-FD frame.
    pub fn set_bitrate_switch(&mut self, value: bool)
        ensures
            *final(self) == (if old(self).can_type == CanType::CanFd {
                CanMessage { bitrate_switch: value, ..*old(self) }
            } else {
                *old(self)
            }),
    {
        if self.can_type == CanType::CanFd {
            self.bitrate_switch = value;
        }
    }

    /// Sets the error-state-indicator flag; it only takes effect on a CAN-FD frame.
    pub fn set_error_state_indicator(&mut self, value: bool)
        ensures
            *final(self) == (if old(self).can_type == CanType::CanFd {
                CanMessage { error_state_indicator: value, ..*old(self) }
            } else {
                *old(self)
            }),
    {
        if self.can_type == CanType::CanFd {
            self.error_state_indicator = value;
        }
    }

    /// Turns a classic data frame into a CAN-FD one, or a CAN-FD frame of at most
    /// 8 bytes into a classic one (clearing the FD-only flags). Returns whether the
    /// class now is `can_type`.
    pub fn set_can_type(&mut self, can_type: CanType) -> (r: bool)
        requires
            old(self).wf(),
        ensures
            final(self).wf(),
            r == (final(self).can_type == can_type),
            r <==> (can_type == old(self).can_type
                || (can_type == CanType::CanFd && !old(self).is_remote_frame)
                || (can_type == CanType::Can && old(self).length <= MAX_FRAME_SIZE)),
            final(self).data@ == old(self).data@,
            final(self).length == old(self).length,
            final(self).arbitration_id == old(self).arbitration_id,
            final(self).is_extended_id == old(self).is_extended_id,
            final(self).is_remote_frame == old(self).is_remote_frame,
    {
        if can_type == self.can_type {
            return true;
        }
        match can_type {
            CanType::CanFd => {
                if self.is_remote_frame {
                    return false;
                }
                self.can_type = CanType::CanFd;
                true
            },
            CanType::Can => {
                if self.length > MAX_FRAME_SIZE {
                    return false;
                }
                self.can_type = CanType::Can;
                self.bitrate_switch = false;
                self.error_state_indicator = false;
                true
            },
            CanType::CanXl => false,
        }
    }

    /// Whether the frame meets the frame invariant.
    pub fn is_valid(&self) -> (r: bool)
        ensures
            r == self.wf(),
    {
        let limit = match self.can_type {
            CanType::Can => MAX_FRAME_SIZE,
            CanType::CanFd => MAX_FD_FRAME_SIZE,
            CanType::CanXl => {
                return false;
            },
        };
        let id_ok = if self.is_extended_id { self.arbitration_id <= EFF_MASK } else { self.arbitration_id <= SFF_MASK };
        let data_ok = if self.is_remote_frame { self.data.len() == 0 } else { self.data.len() == self.length };
        let flags_ok = self.can_type != CanType::Can || (!self.bitrate_switch && !self.error_state_indicator);
        self.length <= limit && id_ok && data_ok && flags_ok
    }

    pub fn id(&self) -> (r: u32)
        ensures
            r == self.arbitration_id,
    {
        self.arbitration_id
    }

    pub fn is_extended(&self) -> (r: bool)
        ensures
            r == self.is_extended_id,
    {
        self.is_extended_id
    }

    pub fn is_remote(&self) -> (r: bool)
        ensures
            r == self.is_remote_frame,
    {
        self.is_remote_frame
    }

    pub fn is_error(&self) -> (r: bool)
        ensures
            r == self.is_error_frame,
    {
        self.is_error_frame
    }

    pub fn channel(&self) -> (r: u8)
        ensures
            r == self.channel,
    {
        self.channel
    }

    pub fn can_type(&self) -> (r: CanType)
        ensures
            r == self.can_type,
    {
        self.can_type
    }

    pub fn length(&self) -> (r: usize)
        ensures
            r == self.length,
    {
        self.length
    }

    pub fn data(&self) -> (r: &[u8])
        ensures
            r@ == self.data@,
    {
        self.data.as_slice()
    }

    pub fn timestamp(&self) -> (r: u64)
        ensures
            r == self.timestamp,
    {
        self.timestamp
    }

    /// The transmission mode, normal (0) when none was set.
    pub fn tx_mode(&self) -> (r: u8)
        ensures
            r == match self.tx_mode { Some(m) => m, None => 0 },
    {
        match self.tx_mode {
            Some(m) => m,
            None => 0,
        }
    }
}

} // verus!
