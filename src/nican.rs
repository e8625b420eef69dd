use vstd::prelude::*;
use vstd::string::StringExecFns;
use crate::config::CanFilter;
use crate::error::CanError;
use crate::frame::{copy_bytes, id_fits, CanDirect, CanMessage, CanType, EFF_MASK, MAX_FRAME_SIZE};
use crate::wire::{pad_to, padded, prefix};
use crate::keyed::{find_key, keyed_view, keys_unique, lemma_keyed_view_push, lemma_keyed_view_remove, lemma_keyed_view_update};

verus! {

/// Bit of the NI-CAN arbitration id field that marks an extended identifier.
pub const NC_FL_CAN_ARBID_XTD: u32 = 0x2000_0000;
/// NI-CAN frame type of a remote frame.
pub const NC_FRMTYPE_REMOTE: u8 = 1;
/// NI-CAN frame type of a communication-error frame.
pub const NC_FRMTYPE_COMM_ERR: u8 = 8;
/// NI-CAN attribute: start communication when the object is opened.
pub const NC_ATTR_START_ON_OPEN: u32 = 0x8000_0006;
/// NI-CAN attribute: bus-error logging.
pub const NC_ATTR_LOG_COMM_ERRS: u32 = 0x8001_000a;
/// NI-CAN attribute: standard-frame comparator.
pub const NC_ATTR_CAN_COMP_STD: u32 = 0x8001_0001;
/// NI-CAN attribute: standard-frame mask.
pub const NC_ATTR_CAN_MASK_STD: u32 = 0x8001_0002;
/// NI-CAN attribute: extended-frame comparator.
pub const NC_ATTR_CAN_COMP_XTD: u32 = 0x8001_0003;
/// NI-CAN attribute: extended-frame mask.
pub const NC_ATTR_CAN_MASK_XTD: u32 = 0x8001_0004;
/// NI-CAN attribute: baud rate.
pub const NC_ATTR_BAUD_RATE: u32 = 0x8000_0007;
/// Milliseconds from 1601-01-01 (the NI-CAN timestamp epoch) to 1970-01-01.
pub const FILETIME_EPOCH_OFFSET_MS: u64 = 11_644_473_600_000;

/// The arbitration id field of an NI-CAN frame: the identifier, with the
/// extended marker bit set for an extended identifier.
pub open spec fn ni_id_field(id: u32, extended: bool) -> u32 {
    if extended {
        id | NC_FL_CAN_ARBID_XTD
    } else {
        id
    }
}

pub fn ni_arbitration_id(id: u32, extended: bool) -> (r: u32)
    ensures
        r == ni_id_field(id, extended),
{
    if extended {
        id | NC_FL_CAN_ARBID_XTD
    } else {
        id
    }
}

/// The identifier and extended flag held by an NI-CAN arbitration id field.
pub fn ni_split_id(raw: u32) -> (r: (u32, bool))
    ensures
        r.1 == (raw & NC_FL_CAN_ARBID_XTD != 0),
        r.0 == if r.1 { raw & EFF_MASK } else { raw & 0x7ffu32 },
        id_fits(r.0, r.1),
{
    let extended = raw & NC_FL_CAN_ARBID_XTD != 0;
    if extended {
        assert(raw & 0x1fff_ffffu32 <= 0x1fff_ffffu32) by (bit_vector);
        (raw & EFF_MASK, true)
    } else {
        assert(raw & 0x7ffu32 <= 0x7ffu32) by (bit_vector);
        (raw & 0x7ff, false)
    }
}

/// Folding an identifier and its extended flag into the NI-CAN arbitration id
/// field and splitting it again gives them back.
pub proof fn lemma_ni_id_round_trip(id: u32, extended: bool)
    requires
        id_fits(id, extended),
    ensures
        (ni_id_field(id, extended) & NC_FL_CAN_ARBID_XTD != 0) == extended,
        extended ==> ni_id_field(id, extended) & EFF_MASK == id,
        !extended ==> ni_id_field(id, extended) & 0x7ffu32 == id,
{
    if extended {
        assert(id <= 0x1fff_ffffu32 ==> (id | 0x2000_0000u32) & 0x2000_0000u32 != 0
            && (id | 0x2000_0000u32) & 0x1fff_ffffu32 == id) by (bit_vector);
    } else {
        assert(id <= 0x7ffu32 ==> id & 0x2000_0000u32 == 0 && id & 0x7ffu32 == id) by (bit_vector);
    }
}

/// Milliseconds since 1970 of an NI-CAN timestamp, a count of 100 ns ticks
/// since 1601; zero for a time before 1970.
pub open spec fn filetime_millis(ticks: u64) -> u64 {
    if ticks / 10_000 >= FILETIME_EPOCH_OFFSET_MS {
        (ticks / 10_000 - FILETIME_EPOCH_OFFSET_MS) as u64
    } else {
        0
    }
}

pub fn filetime_to_millis(ticks: u64) -> (r: u64)
    ensures
        r == filetime_millis(ticks),
{
    let ms = ticks / 10_000;
    if ms >= FILETIME_EPOCH_OFFSET_MS {
        ms - FILETIME_EPOCH_OFFSET_MS
    } else {
        0
    }
}

/// The outcome of a backend call that did not fail.
#[derive(Debug, Clone, Copy, PartialEq, Eq, Structural)]
pub enum Status {
    Success,
    /// The call succeeded with an informational code.
    Warning(i32),
}

/// Interprets a backend status code: positive is a warning on success, zero
/// success, negative a failure carrying the code.
pub fn check_status(result: i32) -> (r: Result<Status, i32>)
    ensures
        result > 0 ==> r == Ok::<Status, i32>(Status::Warning(result)),
        result == 0 ==> r == Ok::<Status, i32>(Status::Success),
        result < 0 ==> r == Err::<Status, i32>(result),
{
    if result > 0 {
        Ok(Status::Warning(result))
    } else if result < 0 {
        Err(result)
    } else {
        Ok(Status::Success)
    }
}

/// Interprets the status `result` of the backend call `call`: a failure becomes
/// an operation error whose message names the call and carries the code.
pub fn check_operation(result: i32, call: &str) -> (r: Result<Status, CanError>)
    ensures
        result > 0 ==> r == Ok::<Status, CanError>(Status::Warning(result)),
        result == 0 ==> r == Ok::<Status, CanError>(Status::Success),
        result < 0 ==> r matches Err(CanError::OperationError(_)),
{
    match check_status(result) {
        Ok(s) => Ok(s),
        Err(code) => {
            let mut msg = String::from_str(call);
            msg.append(" failed with status ");
            let text = code.to_string();
            msg.append(text.as_str());
            Err(CanError::OperationError(msg))
        },
    }
}

/// The NI-CAN frame written on transmit.
#[derive(Debug, Clone)]
pub struct NiCanFrame {
    pub arbitration_id: u32,
    pub is_remote: u8,
    pub data_length: u8,
    pub data: Vec<u8>,
}

impl NiCanFrame {
    pub fn from_message(msg: &CanMessage) -> (r: Self)
        requires
            msg.wf(),
            msg.can_type == CanType::Can,
        ensures
            r.arbitration_id == ni_id_field(msg.arbitration_id, msg.is_extended_id),
            r.is_remote == (if msg.is_remote_frame { 1u8 } else { 0u8 }),
            r.data_length == msg.data@.len(),
            r.data@ == padded(msg.data@, MAX_FRAME_SIZE as nat),
    {
        NiCanFrame {
            arbitration_id: ni_arbitration_id(msg.arbitration_id, msg.is_extended_id),
            is_remote: if msg.is_remote_frame { 1 } else { 0 },
            data_length: msg.data.len() as u8,
            data: pad_to(&msg.data, MAX_FRAME_SIZE),
        }
    }
}

/// Whether the length of a received NI-CAN frame fits a classic frame and its buffer.
pub open spec fn ni_len_ok(s: NiCanStruct) -> bool {
    s.data_length <= MAX_FRAME_SIZE && (s.frame_type != NC_FRMTYPE_REMOTE ==> s.data_length <= s.data@.len())
}

/// The frame that a received NI-CAN frame `s` stands for.
pub open spec fn ni_decoded(s: NiCanStruct, m: CanMessage) -> bool {
    let ext = s.arbitration_id & NC_FL_CAN_ARBID_XTD != 0;
    let remote = s.frame_type == NC_FRMTYPE_REMOTE;
    &&& m.wf()
    &&& m.can_type == CanType::Can
    &&& m.direct == CanDirect::Receive
    &&& m.is_remote_frame == remote
    &&& m.is_extended_id == ext
    &&& m.arbitration_id == (if ext { s.arbitration_id & EFF_MASK } else { s.arbitration_id & 0x7ffu32 })
    &&& m.length == s.data_length
    &&& m.data@ == (if remote { Seq::empty() } else { s.data@.subrange(0, s.data_length as int) })
    &&& m.timestamp == filetime_millis(s.timestamp)
    &&& m.is_error_frame == (s.frame_type == NC_FRMTYPE_COMM_ERR)
    &&& !m.bitrate_switch && !m.error_state_indicator
    &&& m.channel == 0
    &&& m.tx_mode is None
}

/// The NI-CAN frame read on receive.
#[derive(Debug, Clone)]
pub struct NiCanStruct {
    /// 100 ns ticks since 1601.
    pub timestamp: u64,
    pub arbitration_id: u32,
    pub frame_type: u8,
    pub data_length: u8,
    pub data: Vec<u8>,
}

impl NiCanStruct {
    /// The received frame this raw frame stands for; an error when its length
    /// exceeds a classic frame's.
    pub fn into_message(&self) -> (r: Result<CanMessage, CanError>)
        ensures
            r is Ok <==> ni_len_ok(*self),
            r matches Ok(m) ==> ni_decoded(*self, m),
            r matches Err(e) ==> e is OtherError,
    {
        let (id, extended) = ni_split_id(self.arbitration_id);
        let remote = self.frame_type == NC_FRMTYPE_REMOTE;
        let len = self.data_length as usize;
        if len > MAX_FRAME_SIZE || (!remote && len > self.data.len()) {
            return Err(CanError::other_error("length of data is rather than 8"));
        }
        let msg = if remote {
            CanMessage::new_remote(id, extended, len)
        } else {
            let data = prefix(&self.data, len);
            CanMessage::new(id, extended, data.as_slice())
        };
        match msg {
            Some(mut m) => {
                m.set_direct(CanDirect::Receive);
                m.set_timestamp(Some(filetime_to_millis(self.timestamp)));
                m.set_error_frame(self.frame_type == NC_FRMTYPE_COMM_ERR);
                assert(m.arbitration_id == (if extended { self.arbitration_id & EFF_MASK } else { self.arbitration_id & 0x7ffu32 }));
                assert(m.data@ == (if remote { Seq::<u8>::empty() } else { self.data@.subrange(0, self.data_length as int) }));
                Ok(m)
            },
            None => Err(CanError::other_error("length of data is rather than 8")),
        }
    }
}

/// What the core keeps of an opened NI-CAN channel.
#[derive(Debug, Clone)]
pub struct NiCanContext {
    pub handle: u32,
    pub filters: Vec<CanFilter>,
    pub bitrate: u32,
    pub log_errors: bool,
}

/// Whether attribute slots `2 + 2k` and `3 + 2k` hold the comparator and mask of filter `f`.
pub open spec fn filter_attrs_at(ids: Seq<u32>, vals: Seq<u32>, f: CanFilter, k: int) -> bool {
    &&& 3 + 2 * k < ids.len() && 3 + 2 * k < vals.len()
    &&& ids[2 + 2 * k] == NC_ATTR_CAN_COMP_XTD
    &&& ids[3 + 2 * k] == NC_ATTR_CAN_MASK_XTD
    &&& vals[2 + 2 * k] == ni_id_field(f.can_id, f.extended)
    &&& vals[3 + 2 * k] == f.can_mask
}

/// The NI-CAN device: its opened channels by name, one entry per name.
#[derive(Debug, Clone)]
pub struct NiCan {
    pub records: Vec<(String, NiCanContext)>,
}

impl NiCan {
    pub open spec fn channels(&self) -> Map<Seq<char>, NiCanContext> {
        keyed_view(self.records@)
    }

    /// No channel name is recorded twice.
    pub open spec fn wf(&self) -> bool {
        keys_unique(self.records@)
    }

    /// A device with no opened channel.
    pub fn new() -> (r: Self)
        ensures
            r.wf(),
            r.channels() == Map::<Seq<char>, NiCanContext>::empty(),
    {
        NiCan { records: Vec::new() }
    }

    /// How a channel is named in messages.
    pub fn channel_info(channel: &str) -> (r: String)
        ensures
            r@ == "NI-CAN: "@ + channel@,
    {
        let mut r = String::from_str("NI-CAN: ");
        r.append(channel);
        r
    }

    /// The attribute ids and values that configure a channel: start on open,
    /// error logging, the acceptance filters (all-pass without any), and the
    /// baud rate.
    pub fn open_attributes(filters: &Vec<CanFilter>, bitrate: u32, log_errors: bool) -> (r: (Vec<u32>, Vec<u32>))
        ensures
            r.0@.len() == r.1@.len(),
            r.0@.len() == 3 + if filters@.len() == 0 { 4 } else { 2 * filters@.len() },
            r.0@[0] == NC_ATTR_START_ON_OPEN && r.1@[0] == 1,
            r.0@[1] == NC_ATTR_LOG_COMM_ERRS && r.1@[1] == (if log_errors { 1u32 } else { 0u32 }),
            r.0@.last() == NC_ATTR_BAUD_RATE && r.1@.last() == bitrate,
            filters@.len() == 0 ==> r.0@.subrange(2, 6) == seq![NC_ATTR_CAN_COMP_STD, NC_ATTR_CAN_MASK_STD,
                NC_ATTR_CAN_COMP_XTD, NC_ATTR_CAN_MASK_XTD] && r.1@.subrange(2, 6) == seq![0u32, 0u32, 0u32, 0u32],
            forall|k: int| 0 <= k < filters@.len() ==> #[trigger] filter_attrs_at(r.0@, r.1@, filters@[k], k),
    {
        let mut ids: Vec<u32> = vec![NC_ATTR_START_ON_OPEN, NC_ATTR_LOG_COMM_ERRS];
        let mut vals: Vec<u32> = vec![1, if log_errors { 1 } else { 0 }];
        if filters.len() == 0 {
            ids.push(NC_ATTR_CAN_COMP_STD);
            ids.push(NC_ATTR_CAN_MASK_STD);
            ids.push(NC_ATTR_CAN_COMP_XTD);
            ids.push(NC_ATTR_CAN_MASK_XTD);
            vals.push(0);
            vals.push(0);
            vals.push(0);
            vals.push(0);
            assert(ids@.subrange(2, 6) =~= seq![NC_ATTR_CAN_COMP_STD, NC_ATTR_CAN_MASK_STD, NC_ATTR_CAN_COMP_XTD, NC_ATTR_CAN_MASK_XTD]);
            assert(vals@.subrange(2, 6) =~= seq![0u32, 0u32, 0u32, 0u32]);
        } else {
            let mut i: usize = 0;
            while i < filters.len()
                invariant
                    i <= filters@.len(),
                    ids@.len() == 2 + 2 * i,
                    vals@.len() == 2 + 2 * i,
                    ids@[0] == NC_ATTR_START_ON_OPEN && vals@[0] == 1,
                    ids@[1] == NC_ATTR_LOG_COMM_ERRS && vals@[1] == (if log_errors { 1u32 } else { 0u32 }),
                    forall|k: int| 0 <= k < i ==> #[trigger] filter_attrs_at(ids@, vals@, filters@[k], k),
                decreases filters@.len() - i,
            {
                let f = filters[i];
                let ghost ids0 = ids@;
                let ghost vals0 = vals@;
                ids.push(NC_ATTR_CAN_COMP_XTD);
                ids.push(NC_ATTR_CAN_MASK_XTD);
                vals.push(ni_arbitration_id(f.can_id, f.extended));
                vals.push(f.can_mask);
                assert forall|k: int| 0 <= k < i + 1 implies #[trigger] filter_attrs_at(ids@, vals@, filters@[k], k) by {
                    if k < i {
                        assert(filter_attrs_at(ids0, vals0, filters@[k], k));
                    }
                }
                i = i + 1;
            }
        }
        let ghost ids1 = ids@;
        let ghost vals1 = vals@;
        ids.push(NC_ATTR_BAUD_RATE);
        vals.push(bitrate);
        assert(ids@.subrange(0, ids1.len() as int) =~= ids1);
        assert(vals@.subrange(0, vals1.len() as int) =~= vals1);
        assert forall|k: int| 0 <= k < filters@.len() implies #[trigger] filter_attrs_at(ids@, vals@, filters@[k], k) by {
            if filters@.len() > 0 {
                assert(filter_attrs_at(ids1, vals1, filters@[k], k));
            }
        }
        (ids, vals)
    }

    /// Records an opened channel.
    pub fn add_channel(&mut self, channel: &str, context: NiCanContext)
        requires
            old(self).wf(),
        ensures
            final(self).wf(),
            final(self).channels() == old(self).channels().insert(channel@, context),
    {
        let entry = (channel.to_owned(), context);
        match find_key(&self.records, channel) {
            Some(i) => {
                proof {
                    lemma_keyed_view_update(self.records@, i as int, entry);
                }
                self.records.set(i, entry);
            },
            None => {
                proof {
                    lemma_keyed_view_push(self.records@, entry);
                }
                self.records.push(entry);
            },
        }
    }

    /// Forgets a closed channel.
    pub fn remove_channel(&mut self, channel: &str)
        requires
            old(self).wf(),
        ensures
            final(self).wf(),
            final(self).channels() == old(self).channels().remove(channel@),
    {
        match find_key(&self.records, channel) {
            Some(i) => {
                proof {
                    lemma_keyed_view_remove(self.records@, i as int);
                }
                self.records.remove(i);
            },
            None => {
                assert(old(self).channels().remove(channel@) =~= old(self).channels());
            },
        }
    }

    /// The context of the opened channel `channel`.
    pub fn channel_util(&self, channel: &str) -> (r: Result<&NiCanContext, CanError>)
        requires
            self.wf(),
        ensures
            self.channels().dom().contains(channel@) ==> (r matches Ok(c) && *c == self.channels()[channel@]),
            !self.channels().dom().contains(channel@) ==> r matches Err(CanError::ChannelNotOpened(_)),
    {
        match find_key(&self.records, channel) {
            Some(i) => Ok(&self.records[i].1),
            None => Err(CanError::channel_not_opened(channel)),
        }
    }

    /// The outcome of a receive on `channel` given what the backend answered:
    /// `wait` the status of waiting for data, `read` the status of the read,
    /// `raw` the frame read. A failed wait is a timeout, a failed read an
    /// operation error; otherwise the one frame read.
    pub fn finish_receive(&self, channel: &str, wait: i32, read: i32, raw: &NiCanStruct) -> (r: Result<Vec<CanMessage>, CanError>)
        requires
            self.wf(),
        ensures
            !self.channels().dom().contains(channel@) ==> r matches Err(CanError::ChannelNotOpened(_)),
            self.channels().dom().contains(channel@) && wait < 0 ==> r matches Err(CanError::ChannelTimeout(_)),
            self.channels().dom().contains(channel@) && wait >= 0 && read < 0 ==> r matches Err(CanError::OperationError(_)),
            self.channels().dom().contains(channel@) && wait >= 0 && read >= 0 ==> if ni_len_ok(*raw) {
                r matches Ok(v) && v@.len() == 1 && ni_decoded(*raw, v@[0])
            } else {
                r matches Err(CanError::OtherError(_))
            },
    {
        self.channel_util(channel)?;
        if check_status(wait).is_err() {
            return Err(CanError::channel_timeout(channel));
        }
        check_operation(read, "ncRead")?;
        let m = raw.into_message()?;
        Ok(vec![m])
    }

    /// The outcome of a transmit on `channel` given the backend's `status`: a
    /// positive status is a warning on success, a negative one an operation
    /// error carrying the code.
    pub fn finish_transmit(&self, channel: &str, status: i32) -> (r: Result<Status, CanError>)
        requires
            self.wf(),
        ensures
            !self.channels().dom().contains(channel@) ==> r matches Err(CanError::ChannelNotOpened(_)),
            self.channels().dom().contains(channel@) && status == 0 ==> r == Ok::<Status, CanError>(Status::Success),
            self.channels().dom().contains(channel@) && status > 0 ==> r == Ok::<Status, CanError>(Status::Warning(status)),
            self.channels().dom().contains(channel@) && status < 0 ==> r matches Err(CanError::OperationError(_)),
    {
        self.channel_util(channel)?;
        check_operation(status, "ncWrite")
    }

    /// The outcome of opening `channel` given the statuses of configuring and
    /// opening it: any nonzero status is an initialization error and records
    /// nothing; otherwise the channel is recorded with `context`.
    pub fn finish_open(&mut self, channel: &str, config_status: i32, open_status: i32, context: NiCanContext) -> (r: Result<(), CanError>)
        requires
            old(self).wf(),
        ensures
            final(self).wf(),
            (config_status != 0 || open_status != 0) ==> (r matches Err(CanError::InitializeError(_))
                && final(self).channels() == old(self).channels()),
            (config_status == 0 && open_status == 0) ==> (r is Ok
                && final(self).channels() == old(self).channels().insert(channel@, context)),
    {
        if config_status != 0 {
            return Err(CanError::InitializeError(String::from_str("device configuration error")));
        }
        if open_status != 0 {
            return Err(CanError::InitializeError(String::from_str("device open error")));
        }
        self.add_channel(channel, context);
        Ok(())
    }

    /// The outcome of closing `channel` given the backend's `status`: the channel
    /// is forgotten whatever the status; a negative status is an operation error.
    pub fn finish_close(&mut self, channel: &str, status: i32) -> (r: Result<Status, CanError>)
        requires
            old(self).wf(),
        ensures
            final(self).wf(),
            !old(self).channels().dom().contains(channel@) ==> (r matches Err(CanError::ChannelNotOpened(_))
                && final(self).channels() == old(self).channels()),
            old(self).channels().dom().contains(channel@) ==> {
                &&& final(self).channels() == old(self).channels().remove(channel@)
                &&& status == 0 ==> r == Ok::<Status, CanError>(Status::Success)
                &&& status > 0 ==> r == Ok::<Status, CanError>(Status::Warning(status))
                &&& status < 0 ==> r matches Err(CanError::OperationError(_))
            },
    {
        self.channel_util(channel)?;
        self.remove_channel(channel);
        check_operation(status, "ncCloseObject")
    }

    /// The outcome of resetting `channel` given the backend's `status`.
    pub fn finish_reset(&self, channel: &str, status: i32) -> (r: Result<Status, CanError>)
        requires
            self.wf(),
        ensures
            !self.channels().dom().contains(channel@) ==> r matches Err(CanError::ChannelNotOpened(_)),
            self.channels().dom().contains(channel@) && status == 0 ==> r == Ok::<Status, CanError>(Status::Success),
            self.channels().dom().contains(channel@) && status > 0 ==> r == Ok::<Status, CanError>(Status::Warning(status)),
            self.channels().dom().contains(channel@) && status < 0 ==> r matches Err(CanError::OperationError(_)),
    {
        self.channel_util(channel)?;
        check_operation(status, "ncAction")
    }

    pub fn filters(&self, channel: &str) -> (r: Result<Vec<CanFilter>, CanError>)
        requires
            self.wf(),
        ensures
            self.channels().dom().contains(channel@) ==> (r matches Ok(v) && v@ == self.channels()[channel@].filters@),
            !self.channels().dom().contains(channel@) ==> r matches Err(CanError::ChannelNotOpened(_)),
    {
        let ctx = self.channel_util(channel)?;
        let mut out: Vec<CanFilter> = Vec::new();
        let mut i: usize = 0;
        while i < ctx.filters.len()
            invariant
                i <= ctx.filters@.len(),
                out@ == ctx.filters@.subrange(0, i as int),
            decreases ctx.filters@.len() - i,
        {
            out.push(ctx.filters[i]);
            i = i + 1;
        }
        assert(out@ =~= ctx.filters@);
        Ok(out)
    }

    pub fn bitrate(&self, channel: &str) -> (r: Result<u32, CanError>)
        requires
            self.wf(),
        ensures
            self.channels().dom().contains(channel@) ==> r == Ok::<u32, CanError>(self.channels()[channel@].bitrate),
            !self.channels().dom().contains(channel@) ==> r matches Err(CanError::ChannelNotOpened(_)),
    {
        let ctx = self.channel_util(channel)?;
        Ok(ctx.bitrate)
    }

    pub fn is_log_errors(&self, channel: &str) -> (r: Result<bool, CanError>)
        requires
            self.wf(),
        ensures
            self.channels().dom().contains(channel@) ==> r == Ok::<bool, CanError>(self.channels()[channel@].log_errors),
            !self.channels().dom().contains(channel@) ==> r matches Err(CanError::ChannelNotOpened(_)),
    {
        let ctx = self.channel_util(channel)?;
        Ok(ctx.log_errors)
    }
}

} // verus!
