use vstd::prelude::*;
use crate::error::CanError;
use crate::frame::{
    class_limit, id_fits, CanDirect, CanMessage, CanType, DEFAULT_PADDING, EFF_MASK, MAX_FD_FRAME_SIZE,
    MAX_FRAME_SIZE, SFF_MASK,
};

verus! {

/// Value of the time flag of a raw frame whose timestamp is valid.
pub const TIME_FLAG_VALID: u8 = 1;

/// `data` right-padded with the filler byte to `size` bytes.
pub open spec fn padded(data: Seq<u8>, size: nat) -> Seq<u8> {
    data + Seq::new((size - data.len()) as nat, |i: int| DEFAULT_PADDING)
}

/// A copy of `data` right-padded with the filler byte to `size` bytes.
pub fn pad_to(data: &Vec<u8>, size: usize) -> (r: Vec<u8>)
    requires
        data@.len() <= size,
    ensures
        r@ == padded(data@, size as nat),
{
    let mut r: Vec<u8> = Vec::new();
    let mut i: usize = 0;
    while i < data.len()
        invariant
            i <= data@.len(),
            r@ == data@.subrange(0, i as int),
        decreases data@.len() - i,
    {
        r.push(data[i]);
        i = i + 1;
    }
    while r.len() < size
        invariant
            data@.len() <= r@.len() <= size,
            r@.subrange(0, data@.len() as int) == data@,
            forall|j: int| data@.len() <= j < r@.len() ==> r@[j] == DEFAULT_PADDING,
        decreases size - r@.len(),
    {
        r.push(DEFAULT_PADDING);
    }
    assert(r@ =~= padded(data@, size as nat));
    r
}

/// The first `n` bytes of `data`.
pub fn prefix(data: &Vec<u8>, n: usize) -> (r: Vec<u8>)
    requires
        n <= data@.len(),
    ensures
        r@ == data@.subrange(0, n as int),
{
    let mut r: Vec<u8> = Vec::new();
    let mut i: usize = 0;
    while i < n
        invariant
            i <= n <= data@.len(),
            r@ == data@.subrange(0, i as int),
        decreases n - i,
    {
        r.push(data[i]);
        i = i + 1;
    }
    r
}

/// `id` reduced to the identifier format selected by `extended`.
pub open spec fn masked_id(id: u32, extended: bool) -> u32 {
    if extended {
        id & EFF_MASK
    } else {
        id & SFF_MASK
    }
}

pub fn mask_id(id: u32, extended: bool) -> (r: u32)
    ensures
        r == masked_id(id, extended),
        id_fits(r, extended),
        id_fits(id, extended) ==> r == id,
{
    if extended {
        assert(id & 0x1fff_ffffu32 <= 0x1fff_ffffu32) by (bit_vector);
        assert(id <= 0x1fff_ffffu32 ==> id & 0x1fff_ffffu32 == id) by (bit_vector);
        id & EFF_MASK
    } else {
        assert(id & 0x7ffu32 <= 0x7ffu32) by (bit_vector);
        assert(id <= 0x7ffu32 ==> id & 0x7ffu32 == id) by (bit_vector);
        id & SFF_MASK
    }
}

/// Raw classic frame of the USBCAN family: flags in separate bytes, an 8-byte
/// data buffer.
#[derive(Debug, Clone)]
pub struct ZCanFrameVCI {
    pub can_id: u32,
    pub timestamp: u32,
    pub time_flag: u8,
    pub tx_mode: u8,
    pub rem_flag: u8,
    pub ext_flag: u8,
    pub can_len: u8,
    pub data: Vec<u8>,
    pub channel: u8,
}

/// The frame that a raw USBCAN frame `w` stands for.
pub open spec fn vci_decoded(w: ZCanFrameVCI, m: CanMessage) -> bool {
    let len = if w.can_len as nat <= w.data@.len() && w.can_len <= MAX_FRAME_SIZE {
        w.can_len as nat
    } else if w.data@.len() <= MAX_FRAME_SIZE {
        w.data@.len()
    } else {
        MAX_FRAME_SIZE as nat
    };
    &&& m.wf()
    &&& m.can_type == CanType::Can
    &&& m.direct == CanDirect::Receive
    &&& m.is_extended_id == (w.ext_flag > 0)
    &&& m.is_remote_frame == (w.rem_flag > 0)
    &&& !m.is_error_frame
    &&& m.arbitration_id == masked_id(w.can_id, w.ext_flag > 0)
    &&& m.length == len
    &&& m.data@ == if w.rem_flag > 0 { Seq::empty() } else { w.data@.subrange(0, len as int) }
    &&& m.timestamp == w.timestamp as u64
    &&& m.channel == w.channel
    &&& m.tx_mode is None
}

impl ZCanFrameVCI {
    /// The raw frame of a classic frame: payload padded to 8 bytes, flags as
    /// 0/1 bytes.
    pub fn from_message(msg: &CanMessage) -> (r: Self)
        requires
            msg.wf(),
            msg.can_type == CanType::Can,
        ensures
            r.can_id == msg.arbitration_id,
            r.timestamp == msg.timestamp as u32,
            r.time_flag == TIME_FLAG_VALID,
            r.tx_mode == match msg.tx_mode { Some(m) => m, None => 0 },
            r.rem_flag == (if msg.is_remote_frame { 1u8 } else { 0u8 }),
            r.ext_flag == (if msg.is_extended_id { 1u8 } else { 0u8 }),
            r.can_len == msg.length,
            r.data@ == padded(msg.data@, MAX_FRAME_SIZE as nat),
            r.channel == msg.channel,
    {
        ZCanFrameVCI {
            can_id: msg.arbitration_id,
            timestamp: msg.timestamp as u32,
            time_flag: TIME_FLAG_VALID,
            tx_mode: msg.tx_mode(),
            rem_flag: if msg.is_remote_frame { 1 } else { 0 },
            ext_flag: if msg.is_extended_id { 1 } else { 0 },
            can_len: msg.length as u8,
            data: pad_to(&msg.data, MAX_FRAME_SIZE),
            channel: msg.channel,
        }
    }

    /// The received frame that this raw frame stands for.
    pub fn into_message(&self) -> (r: CanMessage)
        ensures
            vci_decoded(*self, r),
    {
        let len: usize = if (self.can_len as usize) <= self.data.len() && (self.can_len as usize) <= MAX_FRAME_SIZE {
            self.can_len as usize
        } else if self.data.len() <= MAX_FRAME_SIZE {
            self.data.len()
        } else {
            MAX_FRAME_SIZE
        };
        let extended = self.ext_flag > 0;
        let remote = self.rem_flag > 0;
        CanMessage {
            timestamp: self.timestamp as u64,
            arbitration_id: mask_id(self.can_id, extended),
            is_extended_id: extended,
            is_remote_frame: remote,
            is_error_frame: false,
            channel: self.channel,
            length: len,
            data: if remote { Vec::new() } else { prefix(&self.data, len) },
            can_type: CanType::Can,
            direct: CanDirect::Receive,
            bitrate_switch: false,
            error_state_indicator: false,
            tx_mode: None,
        }
    }
}

/// Converting a classic frame to the USBCAN raw frame and back gives the same
/// payload, identifier, extended, remote and error flags, and frame class. The
/// format has no error bit, so this holds of frames that are not error frames.
pub proof fn lemma_vci_round_trip(m: CanMessage, w: ZCanFrameVCI, back: CanMessage)
    requires
        m.wf(),
        m.can_type == CanType::Can,
        !m.is_error_frame,
        w.can_id == m.arbitration_id,
        w.rem_flag == (if m.is_remote_frame { 1u8 } else { 0u8 }),
        w.ext_flag == (if m.is_extended_id { 1u8 } else { 0u8 }),
        w.can_len == m.length,
        w.data@ == padded(m.data@, MAX_FRAME_SIZE as nat),
        vci_decoded(w, back),
    ensures
        back.data@ == m.data@,
        back.length == m.length,
        back.arbitration_id == m.arbitration_id,
        back.is_extended_id == m.is_extended_id,
        back.is_remote_frame == m.is_remote_frame,
        back.is_error_frame == m.is_error_frame,
        back.can_type == m.can_type,
{
    let id = m.arbitration_id;
    assert(id <= 0x1fff_ffffu32 ==> id & 0x1fff_ffffu32 == id) by (bit_vector);
    assert(id <= 0x7ffu32 ==> id & 0x7ffu32 == id) by (bit_vector);
    if !m.is_remote_frame {
        assert(w.data@.subrange(0, m.length as int) =~= m.data@);
    }
}

/// 1 for a set flag, 0 for a clear one.
pub open spec fn bit(b: bool) -> u32 {
    if b { 1 } else { 0 }
}

/// The flag word of the USBCANFD raw frame: bits 3..0 transmission mode, bits
/// 7..4 frame class (1 for CAN-FD), bit 8 remote, bit 9 extended, bit 10 error,
/// bit 11 bit-rate switch, bit 12 error state indicator.
pub open spec fn msg20_flags(tx: u32, fd: u32, rem: u32, ext: u32, err: u32, brs: u32, esi: u32) -> u32 {
    tx | fd << 4u32 | rem << 8u32 | ext << 9u32 | err << 10u32 | brs << 11u32 | esi << 12u32
}

/// Bit `k` of `flags`.
pub open spec fn flag(flags: u32, k: u32) -> bool {
    (flags >> k) & 1u32 == 1u32
}

/// Bits 7..4 of `flags`: the frame class.
pub open spec fn class_bits(flags: u32) -> u32 {
    (flags >> 4u32) & 0xfu32
}

/// Decoding the flag word gives back each field it was built from.
pub proof fn lemma_msg20_flags(tx: u32, fd: u32, rem: u32, ext: u32, err: u32, brs: u32, esi: u32)
    requires
        tx < 16,
        fd <= 1,
        rem <= 1,
        ext <= 1,
        err <= 1,
        brs <= 1,
        esi <= 1,
    ensures
        msg20_flags(tx, fd, rem, ext, err, brs, esi) & 0xfu32 == tx,
        class_bits(msg20_flags(tx, fd, rem, ext, err, brs, esi)) == fd,
        flag(msg20_flags(tx, fd, rem, ext, err, brs, esi), 8) == (rem == 1),
        flag(msg20_flags(tx, fd, rem, ext, err, brs, esi), 9) == (ext == 1),
        flag(msg20_flags(tx, fd, rem, ext, err, brs, esi), 10) == (err == 1),
        flag(msg20_flags(tx, fd, rem, ext, err, brs, esi), 11) == (brs == 1),
        flag(msg20_flags(tx, fd, rem, ext, err, brs, esi), 12) == (esi == 1),
{
    assert(
        (tx | fd << 4u32 | rem << 8u32 | ext << 9u32 | err << 10u32 | brs << 11u32 | esi << 12u32) & 0xfu32 == tx
        && ((tx | fd << 4u32 | rem << 8u32 | ext << 9u32 | err << 10u32 | brs << 11u32 | esi << 12u32) >> 4u32) & 0xfu32 == fd
    ) by (bit_vector)
        requires
            tx < 16u32, fd <= 1u32, rem <= 1u32, ext <= 1u32, err <= 1u32, brs <= 1u32, esi <= 1u32,
    ;
    assert(
        ((((tx | fd << 4u32 | rem << 8u32 | ext << 9u32 | err << 10u32 | brs << 11u32 | esi << 12u32) >> 8u32) & 1u32 == 1u32) == (rem == 1u32))
        && ((((tx | fd << 4u32 | rem << 8u32 | ext << 9u32 | err << 10u32 | brs << 11u32 | esi << 12u32) >> 9u32) & 1u32 == 1u32) == (ext == 1u32))
        && ((((tx | fd << 4u32 | rem << 8u32 | ext << 9u32 | err << 10u32 | brs << 11u32 | esi << 12u32) >> 10u32) & 1u32 == 1u32) == (err == 1u32))
    ) by (bit_vector)
        requires
            tx < 16u32, fd <= 1u32, rem <= 1u32, ext <= 1u32, err <= 1u32, brs <= 1u32, esi <= 1u32,
    ;
    assert(
        ((((tx | fd << 4u32 | rem << 8u32 | ext << 9u32 | err << 10u32 | brs << 11u32 | esi << 12u32) >> 11u32) & 1u32 == 1u32) == (brs == 1u32))
        && ((((tx | fd << 4u32 | rem << 8u32 | ext << 9u32 | err << 10u32 | brs << 11u32 | esi << 12u32) >> 12u32) & 1u32 == 1u32) == (esi == 1u32))
    ) by (bit_vector)
        requires
            tx < 16u32, fd <= 1u32, rem <= 1u32, ext <= 1u32, err <= 1u32, brs <= 1u32, esi <= 1u32,
    ;
}

/// Raw frame of the USBCANFD family: flags packed in one word, a data buffer of
/// 8 bytes for classic frames and 64 for CAN-FD ones.
#[derive(Debug, Clone)]
pub struct ZCanMsg20 {
    pub timestamp: u32,
    pub can_id: u32,
    pub flags: u32,
    pub channel: u8,
    pub can_len: u8,
    pub data: Vec<u8>,
}

/// The frame that a raw USBCANFD frame `w` stands for.
pub open spec fn msg20_decoded(w: ZCanMsg20, m: CanMessage) -> bool {
    let fd = class_bits(w.flags) == 1;
    let limit: nat = if fd { MAX_FD_FRAME_SIZE as nat } else { MAX_FRAME_SIZE as nat };
    let len = if w.can_len as nat <= w.data@.len() && w.can_len as nat <= limit {
        w.can_len as nat
    } else if w.data@.len() <= limit {
        w.data@.len()
    } else {
        limit
    };
    &&& m.wf()
    &&& m.can_type == (if fd { CanType::CanFd } else { CanType::Can })
    &&& m.direct == CanDirect::Receive
    &&& m.is_remote_frame == flag(w.flags, 8)
    &&& m.is_extended_id == flag(w.flags, 9)
    &&& m.is_error_frame == flag(w.flags, 10)
    &&& m.bitrate_switch == (fd && flag(w.flags, 11))
    &&& m.error_state_indicator == (fd && flag(w.flags, 12))
    &&& m.arbitration_id == masked_id(w.can_id, flag(w.flags, 9))
    &&& m.length == len
    &&& m.data@ == if flag(w.flags, 8) { Seq::empty() } else { w.data@.subrange(0, len as int) }
    &&& m.timestamp == w.timestamp as u64
    &&& m.channel == w.channel
    &&& m.tx_mode == Some((w.flags & 0xfu32) as u8)
}

/// Whether `w` is the raw frame of `msg`: payload padded to its class's buffer
/// size, flags packed into the flag word.
pub open spec fn msg20_encoded(msg: CanMessage, w: ZCanMsg20) -> bool {
    &&& w.can_id == msg.arbitration_id
    &&& w.timestamp == msg.timestamp as u32
    &&& w.flags == msg20_flags(
        (match msg.tx_mode { Some(m) => m, None => 0 }) as u32 & 0xfu32,
        bit(msg.can_type == CanType::CanFd),
        bit(msg.is_remote_frame),
        bit(msg.is_extended_id),
        bit(msg.is_error_frame),
        bit(msg.bitrate_switch),
        bit(msg.error_state_indicator),
    )
    &&& w.can_len == msg.length
    &&& w.data@ == padded(msg.data@, class_limit(msg.can_type))
    &&& w.channel == msg.channel
}

/// The raw frames of a batch for the queue of class `can_type`; an error when a
/// frame breaks the frame invariant or is of another class.
pub fn encode_batch(frames: &Vec<CanMessage>, can_type: CanType) -> (r: Result<Vec<ZCanMsg20>, CanError>)
    ensures
        r is Ok <==> forall|i: int| 0 <= i < frames@.len() ==> (#[trigger] frames@[i]).wf() && frames@[i].can_type == can_type,
        r matches Ok(v) ==> v@.len() == frames@.len() && forall|i: int| 0 <= i < frames@.len() ==> msg20_encoded(#[trigger] frames@[i], v@[i]),
        r matches Err(e) ==> e is OtherError,
{
    let mut out: Vec<ZCanMsg20> = Vec::new();
    let mut i: usize = 0;
    while i < frames.len()
        invariant
            i <= frames@.len(),
            out@.len() == i,
            forall|j: int| 0 <= j < i ==> (#[trigger] frames@[j]).wf() && frames@[j].can_type == can_type,
            forall|j: int| 0 <= j < i ==> msg20_encoded(#[trigger] frames@[j], out@[j]),
        decreases frames@.len() - i,
    {
        let f = &frames[i];
        if !f.is_valid() || f.can_type != can_type {
            return Err(CanError::other_error("invalid frame for this queue"));
        }
        out.push(ZCanMsg20::from_message(f));
        i = i + 1;
    }
    Ok(out)
}

impl ZCanMsg20 {
    /// The raw frame of a frame: payload padded to its class's buffer size,
    /// flags packed into the flag word.
    pub fn from_message(msg: &CanMessage) -> (r: Self)
        requires
            msg.wf(),
        ensures
            msg20_encoded(*msg, r),
    {
        let tx = msg.tx_mode() as u32 & 0xf;
        let fd: u32 = if msg.can_type == CanType::CanFd { 1 } else { 0 };
        let rem: u32 = if msg.is_remote_frame { 1 } else { 0 };
        let ext: u32 = if msg.is_extended_id { 1 } else { 0 };
        let err: u32 = if msg.is_error_frame { 1 } else { 0 };
        let brs: u32 = if msg.bitrate_switch { 1 } else { 0 };
        let esi: u32 = if msg.error_state_indicator { 1 } else { 0 };
        let size = if msg.can_type == CanType::CanFd { MAX_FD_FRAME_SIZE } else { MAX_FRAME_SIZE };
        ZCanMsg20 {
            timestamp: msg.timestamp as u32,
            can_id: msg.arbitration_id,
            flags: tx | fd << 4u32 | rem << 8u32 | ext << 9u32 | err << 10u32 | brs << 11u32 | esi << 12u32,
            channel: msg.channel,
            can_len: msg.length as u8,
            data: pad_to(&msg.data, size),
        }
    }

    /// The received frame that this raw frame stands for.
    pub fn into_message(&self) -> (r: CanMessage)
        ensures
            msg20_decoded(*self, r),
    {
        let fd = (self.flags >> 4u32) & 0xf == 1;
        let limit: usize = if fd { MAX_FD_FRAME_SIZE } else { MAX_FRAME_SIZE };
        let len: usize = if (self.can_len as usize) <= self.data.len() && (self.can_len as usize) <= limit {
            self.can_len as usize
        } else if self.data.len() <= limit {
            self.data.len()
        } else {
            limit
        };
        let remote = (self.flags >> 8u32) & 1 == 1;
        let extended = (self.flags >> 9u32) & 1 == 1;
        let error = (self.flags >> 10u32) & 1 == 1;
        let brs = (self.flags >> 11u32) & 1 == 1;
        let esi = (self.flags >> 12u32) & 1 == 1;
        let flags = self.flags;
        let tx = flags & 0xf;
        assert(tx <= 0xf) by (bit_vector)
            requires
                tx == flags & 0xf,
        ;
        CanMessage {
            timestamp: self.timestamp as u64,
            arbitration_id: mask_id(self.can_id, extended),
            is_extended_id: extended,
            is_remote_frame: remote,
            is_error_frame: error,
            channel: self.channel,
            length: len,
            data: if remote { Vec::new() } else { prefix(&self.data, len) },
            can_type: if fd { CanType::CanFd } else { CanType::Can },
            direct: CanDirect::Receive,
            bitrate_switch: fd && brs,
            error_state_indicator: fd && esi,
            tx_mode: Some(tx as u8),
        }
    }
}

/// Converting a frame to the USBCANFD raw frame and back gives the same
/// payload, identifier, extended, remote and error flags, frame class, and
/// CAN-FD flags.
pub proof fn lemma_msg20_round_trip(m: CanMessage, w: ZCanMsg20, back: CanMessage)
    requires
        m.wf(),
        msg20_encoded(m, w),
        msg20_decoded(w, back),
    ensures
        back.data@ == m.data@,
        back.length == m.length,
        back.arbitration_id == m.arbitration_id,
        back.is_extended_id == m.is_extended_id,
        back.is_remote_frame == m.is_remote_frame,
        back.is_error_frame == m.is_error_frame,
        back.can_type == m.can_type,
        back.bitrate_switch == m.bitrate_switch,
        back.error_state_indicator == m.error_state_indicator,
{
    let t = (match m.tx_mode { Some(t) => t, None => 0 }) as u32;
    assert(t & 0xfu32 < 16u32) by (bit_vector);
    lemma_msg20_flags(t & 0xfu32, bit(m.can_type == CanType::CanFd), bit(m.is_remote_frame), bit(m.is_extended_id),
        bit(m.is_error_frame), bit(m.bitrate_switch), bit(m.error_state_indicator));
    let id = m.arbitration_id;
    assert(id <= 0x1fff_ffffu32 ==> id & 0x1fff_ffffu32 == id) by (bit_vector);
    assert(id <= 0x7ffu32 ==> id & 0x7ffu32 == id) by (bit_vector);
    if !m.is_remote_frame {
        assert(w.data@.subrange(0, m.length as int) =~= m.data@);
    }
}

} // verus!
