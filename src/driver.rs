use vstd::prelude::*;
use crate::api::{chl_cfg_of, chl_cfg_ok, ZCloudApi, ZCanApi, ZCanChlCfg, ZCanChlError, ZCanChlStatus, ZCanFrameType, ZDeviceApi, ZLinApi, ZLinChlCfg};
use crate::bitrate::{table_of, BitrateTables};
use crate::builder::{ChannelConfig, DeviceBuilder};
use crate::config::{OtherType, OtherValue};
use crate::constants::{DERIVE_INFO, DEVICE_INDEX, DEVICE_TYPE, LIBPATH};
use crate::api::prop_ok;
use crate::context::{lemma_open_contexts_contains, lemma_open_contexts_ordered, positional, open_contexts, Handler, ZChannelContext, ZDeviceContext, ZDeviceInfo, CHANNEL_SLOTS};
use crate::device::{DeriveInfo, ZCanDeviceType};
use crate::backend::Backend;
use crate::error::CanError;
use crate::frame::{CanDirect, CanMessage, CanType};
use crate::constants::WAIT_FOREVER;

verus! {

/// A device of one of the supported hardware families, reached through the
/// backend `B`. It is Unopened until `open`, Opened while it holds a handler,
/// and Closed again after `close`.
pub struct ZDriver<B> {
    pub libpath: String,
    pub dev_type: ZCanDeviceType,
    pub dev_idx: u32,
    pub derive: Option<DeriveInfo>,
    pub tables: BitrateTables,
    pub handler: Option<Handler>,
    /// The backend, with the record of every call handed to it.
    pub backend: Backend<B>,
}

/// A device or channel call handed to the backend, with its answer.
pub enum DevCall {
    /// Opening the device: the context handed, the answer, and the handle the
    /// backend left in the context.
    Open { context: ZDeviceContext, result: Result<(), CanError>, handle: Option<u32> },
    /// Reading the device information.
    Info { context: ZDeviceContext, result: Result<ZDeviceInfo, CanError> },
    /// Asking whether the device is online.
    Online { context: ZDeviceContext, result: Result<bool, CanError> },
    /// Reading a channel's status registers.
    Status { context: ZChannelContext, result: Result<ZCanChlStatus, CanError> },
    /// Reading a channel's error information.
    ErrorInfo { context: ZChannelContext, result: Result<ZCanChlError, CanError> },
    /// Clearing a channel's receive buffer.
    Clear { context: ZChannelContext, result: Result<(), CanError> },
    /// Clearing a LIN channel's receive buffer.
    LinClear { context: ZChannelContext, result: Result<(), CanError> },
    /// Counting the frames pending on a LIN channel.
    LinCount { context: ZChannelContext, result: Result<u32, CanError> },
    /// Initializing a LIN channel: the context handed, the configuration, the
    /// answer, and the context as the backend left it.
    LinInit { context: ZChannelContext, cfg: ZLinChlCfg, result: Result<(), CanError>, after: ZChannelContext },
}

/// The contexts of a reset record, in order.
pub open spec fn reset_contexts(s: Seq<(ZChannelContext, Result<(), CanError>)>) -> Seq<ZChannelContext> {
    s.map_values(|e: (ZChannelContext, Result<(), CanError>)| e.0)
}

/// The failures among the answers of a reset record, in order.
pub open spec fn failures(s: Seq<(ZChannelContext, Result<(), CanError>)>) -> Seq<CanError>
    decreases s.len(),
{
    if s.len() == 0 {
        Seq::empty()
    } else {
        match s.last().1 {
            Err(e) => failures(s.drop_last()).push(e),
            Ok(_) => failures(s.drop_last()),
        }
    }
}

/// The failures of two records one after the other are those of each in turn.
pub proof fn lemma_failures_append(a: Seq<(ZChannelContext, Result<(), CanError>)>, b: Seq<(ZChannelContext, Result<(), CanError>)>)
    ensures
        failures(a + b) == failures(a) + failures(b),
    decreases b.len(),
{
    if b.len() == 0 {
        assert(a + b =~= a);
        assert(failures(b) =~= Seq::<CanError>::empty());
        assert(failures(a) + failures(b) =~= failures(a));
    } else {
        lemma_failures_append(a, b.drop_last());
        assert((a + b).drop_last() =~= a + b.drop_last());
        assert((a + b).last() == b.last());
        match b.last().1 {
            Err(e) => {
                assert(failures(a) + failures(b.drop_last()).push(e) =~= (failures(a) + failures(b.drop_last())).push(e));
            },
            Ok(_) => {},
        }
    }
}

/// A data-plane call handed to the backend, with its answer.
pub enum IoCall {
    /// A pending-frame count of a receive queue.
    Count { channel: u8, queue: ZCanFrameType, result: Result<u32, CanError> },
    /// A batched receive of up to `size` classic (`fd` false) or CAN-FD frames;
    /// the answer is the raw batch.
    Receive { channel: u8, fd: bool, size: u32, timeout: u32, result: Result<Seq<CanMessage>, CanError> },
    /// A batched transmit; the answer is the count the backend reported.
    Transmit { channel: u8, fd: bool, frames: Seq<CanMessage>, result: Result<u32, CanError> },
}

impl<B: ZDeviceApi + ZCanApi + ZLinApi> ZDriver<B> {
    pub open spec fn wf(&self) -> bool {
        self.handler matches Some(h) ==> h.wf()
    }

    /// Whether the driver's fields other than the handler and the reset record
    /// are the same in `self` and `other`.
    pub open spec fn same_setup(&self, other: &Self) -> bool {
        &&& self.backend.api_view() == other.backend.api_view()
        &&& self.libpath == other.libpath
        &&& self.dev_type == other.dev_type
        &&& self.dev_idx == other.dev_idx
        &&& self.derive == other.derive
        &&& self.tables == other.tables
    }

    /// Whether only the record of device and channel calls may differ.
    pub open spec fn io_only_dev(&self, other: &Self) -> bool {
        &&& self.same_setup(other)
        &&& self.handler == other.handler
        &&& self.backend.resets() == other.backend.resets()
        &&& self.backend.closes() == other.backend.closes()
        &&& self.backend.inits() == other.backend.inits()
        &&& self.backend.io() == other.backend.io()
    }

    /// Whether only the data-plane record may differ between `self` and `other`.
    pub open spec fn io_only(&self, other: &Self) -> bool {
        &&& self.same_setup(other)
        &&& self.handler == other.handler
        &&& self.backend.resets() == other.backend.resets()
        &&& self.backend.closes() == other.backend.closes()
        &&& self.backend.inits() == other.backend.inits()
        &&& self.backend.dev() == other.backend.dev()
    }

    /// The live context of CAN channel `channel`, if the device is opened.
    pub open spec fn can_slot(&self, channel: u8) -> Option<ZChannelContext> {
        match self.handler {
            Some(h) => h.cans@[channel as int],
            None => None,
        }
    }

    /// The live context of LIN channel `channel`, if the device is opened.
    pub open spec fn lin_slot(&self, channel: u8) -> Option<ZChannelContext> {
        match self.handler {
            Some(h) => h.lins@[channel as int],
            None => None,
        }
    }

    /// A device that is not opened yet.
    pub fn new(
        api: B,
        libpath: String,
        dev_type: ZCanDeviceType,
        dev_idx: u32,
        derive: Option<DeriveInfo>,
        tables: BitrateTables,
    ) -> (r: Self)
        ensures
            r.wf(),
            r.backend.api_view() == api,
            r.libpath == libpath,
            r.dev_type == dev_type,
            r.dev_idx == dev_idx,
            r.derive == derive,
            r.tables == tables,
            r.handler is None,
            r.backend.resets().len() == 0,
            r.backend.closes().len() == 0,
            r.backend.inits().len() == 0,
            r.backend.dev().len() == 0,
            r.backend.io().len() == 0,
    {
        ZDriver { backend: Backend::new(api), libpath, dev_type, dev_idx, derive, tables, handler: None }
    }

    pub fn device_type(&self) -> (r: ZCanDeviceType)
        ensures
            r == self.dev_type,
    {
        self.dev_type
    }

    pub fn device_index(&self) -> (r: u32)
        ensures
            r == self.dev_idx,
    {
        self.dev_idx
    }

    pub fn is_derive_device(&self) -> (r: bool)
        ensures
            r == (self.derive is Some),
    {
        self.derive.is_some()
    }

    /// The device's information; an error while it is not opened.
    pub fn device_info(&self) -> (r: Result<&ZDeviceInfo, CanError>)
        ensures
            match self.handler {
                Some(h) => r matches Ok(i) && *i == h.info,
                None => r matches Err(CanError::DeviceNotOpened),
            },
    {
        match &self.handler {
            Some(h) => Ok(&h.info),
            None => Err(CanError::device_not_opened()),
        }
    }

    /// What opening the unopened device `before` leaves, with result `r`. The
    /// backend is asked to open a fresh context; on success the information is
    /// read from the device (or made up for a derived one). `r` is the first
    /// failing answer, and on it no handler is kept (a device the backend did
    /// open is closed again). On success the handler holds the device context
    /// with the backend's handle, the information, and no initialized channel.
    pub open spec fn opened_from(before: Self, after: Self, r: Result<(), CanError>) -> bool {
        let d = after.backend.dev().subrange(before.backend.dev().len() as int, after.backend.dev().len() as int);
        &&& after.same_setup(&before)
        &&& after.backend.resets() == before.backend.resets()
        &&& after.backend.inits() == before.backend.inits()
        &&& after.backend.io() == before.backend.io()
        &&& after.backend.dev().len() > before.backend.dev().len()
        &&& after.backend.dev().subrange(0, before.backend.dev().len() as int) == before.backend.dev()
        &&& (r is Ok <==> after.handler is Some)
        &&& match d[0] {
            DevCall::Open { context, result, handle } => {
                let device = ZDeviceContext {
                    dev_type: before.dev_type,
                    dev_idx: before.dev_idx,
                    dev_hdl: handle,
                    is_derive: before.derive is Some,
                };
                &&& context == (ZDeviceContext { dev_type: before.dev_type, dev_idx: before.dev_idx, dev_hdl: None, is_derive: before.derive is Some })
                &&& match result {
                    Err(e) => d.len() == 1 && r == Err::<(), CanError>(e) && after.backend.closes() == before.backend.closes(),
                    Ok(_) => match before.derive {
                        Some(dv) => {
                            &&& d.len() == 1
                            &&& r is Ok
                            &&& after.backend.closes() == before.backend.closes()
                            &&& after.handler->Some_0.device == device
                            &&& ZDeviceInfo::derived_from(after.handler->Some_0.info, dv)
                        },
                        None => {
                            &&& d.len() == 2
                            &&& match d[1] {
                                DevCall::Info { context: ic, result: info } => {
                                    &&& ic == device
                                    &&& match info {
                                        Ok(i) => r is Ok && after.backend.closes() == before.backend.closes()
                                            && after.handler->Some_0.device == device && after.handler->Some_0.info == i,
                                        Err(e) => r == Err::<(), CanError>(e)
                                            && after.backend.closes().len() == before.backend.closes().len() + 1
                                            && after.backend.closes().drop_last() == before.backend.closes()
                                            && after.backend.closes().last().0 == device,
                                    }
                                },
                                _ => false,
                            }
                        },
                    },
                }
            },
            _ => false,
        }
        &&& r is Ok ==> forall|i: int| 0 <= i < CHANNEL_SLOTS
            ==> after.handler->Some_0.cans@[i] is None && after.handler->Some_0.lins@[i] is None
    }

    /// Opens the device. A device type without a backend is refused, and so is
    /// opening a device that is already opened; neither changes anything.
    pub fn open(&mut self) -> (r: Result<(), CanError>)
        requires
            old(self).wf(),
        ensures
            final(self).wf(),
            !old(self).dev_type.spec_has_backend() ==> (r matches Err(CanError::NotSupportedError) && *final(self) == *old(self)),
            old(self).dev_type.spec_has_backend() && old(self).handler is Some
                ==> (r matches Err(CanError::OtherError(_)) && *final(self) == *old(self)),
            old(self).dev_type.spec_has_backend() && old(self).handler is None ==> Self::opened_from(*old(self), *final(self), r),
    {
        if !self.dev_type.has_backend() {
            return Err(CanError::NotSupportedError);
        }
        if self.handler.is_some() {
            return Err(CanError::other_error("device is already opened"));
        }
        let mut context = ZDeviceContext::new(self.dev_type, self.dev_idx, self.derive.is_some());
        let ghost handed = context;
        let opened = self.backend.open(&mut context);
        assert(self.backend.dev().subrange(0, old(self).backend.dev().len() as int) =~= old(self).backend.dev());
        if let Err(e) = opened {
            return Err(e);
        }
        let device = ZDeviceContext {
            dev_type: self.dev_type,
            dev_idx: self.dev_idx,
            dev_hdl: context.dev_hdl,
            is_derive: self.derive.is_some(),
        };
        let info = match self.derive {
            Some(d) => ZDeviceInfo::from_derive(&d),
            None => {
                let read = self.backend.read_device_info(&device);
                assert(self.backend.dev().subrange(0, old(self).backend.dev().len() as int) =~= old(self).backend.dev());
                assert(self.backend.dev().subrange(old(self).backend.dev().len() as int, self.backend.dev().len() as int)
                    =~= seq![self.backend.dev()[old(self).backend.dev().len() as int], self.backend.dev()[old(self).backend.dev().len() + 1int]]);
                match read {
                    Ok(info) => info,
                    Err(e) => {
                        let closed = self.backend.close(&device);
                        assert(self.backend.closes().drop_last() =~= old(self).backend.closes());
                        return Err(e);
                    },
                }
            },
        };
        self.handler = Some(Handler::new(device, info));
        Ok(())
    }
}

impl<B: ZDeviceApi + ZCanApi + ZLinApi> ZDriver<B> {
    /// What closing `before` leaves: no handler, the same setup, and every live
    /// CAN then LIN context of `before` handed to the backend's reset, in channel order.
    /// The device itself is then handed to the backend's close.
    pub open spec fn closed_from(before: Self, after: Self) -> bool {
        &&& after.handler is None
        &&& after.same_setup(&before)
        &&& after.backend.inits() == before.backend.inits()
        &&& after.backend.dev() == before.backend.dev()
        &&& after.backend.io() == before.backend.io()
        &&& match before.handler {
            Some(h) => {
                &&& after.backend.resets().len() >= before.backend.resets().len()
                &&& after.backend.resets().subrange(0, before.backend.resets().len() as int) == before.backend.resets()
                &&& reset_contexts(after.backend.resets().subrange(before.backend.resets().len() as int, after.backend.resets().len() as int))
                    == open_contexts(h.cans@) + open_contexts(h.lins@)
                &&& after.backend.closes().len() == before.backend.closes().len() + 1
                &&& after.backend.closes().drop_last() == before.backend.closes()
                &&& after.backend.closes().last().0 == h.device
            },
            None => after.backend.resets() == before.backend.resets() && after.backend.closes() == before.backend.closes(),
        }
    }

    /// Resets every live channel of `slots` through the backend, best effort,
    /// recording each context handed to the reset.
    fn reset_all(&mut self, slots: &Vec<Option<ZChannelContext>>, lin: bool) -> (r: Vec<CanError>)
        ensures
            r@ == failures(final(self).backend.resets().subrange(old(self).backend.resets().len() as int, final(self).backend.resets().len() as int)),
            final(self).backend.resets().len() >= old(self).backend.resets().len(),
            final(self).backend.resets().subrange(0, old(self).backend.resets().len() as int) == old(self).backend.resets(),
            reset_contexts(final(self).backend.resets().subrange(old(self).backend.resets().len() as int, final(self).backend.resets().len() as int))
                == open_contexts(slots@),
            final(self).same_setup(old(self)),
            final(self).handler == old(self).handler,
            final(self).backend.closes() == old(self).backend.closes(),
            final(self).backend.inits() == old(self).backend.inits(),
            final(self).backend.dev() == old(self).backend.dev(),
            final(self).backend.io() == old(self).backend.io(),
    {
        let mut i: usize = 0;
        let mut failed: Vec<CanError> = Vec::new();
        assert(slots@.subrange(0, 0) =~= Seq::<Option<ZChannelContext>>::empty());
        assert(open_contexts(Seq::<Option<ZChannelContext>>::empty()) =~= Seq::<ZChannelContext>::empty());
        assert(self.backend.resets().subrange(0, self.backend.resets().len() as int) =~= old(self).backend.resets());
        assert(reset_contexts(self.backend.resets().subrange(self.backend.resets().len() as int, self.backend.resets().len() as int))
            =~= Seq::<ZChannelContext>::empty());
        while i < slots.len()
            invariant
                i <= slots@.len(),
                self.backend.resets().len() >= old(self).backend.resets().len(),
                self.backend.resets().subrange(0, old(self).backend.resets().len() as int) == old(self).backend.resets(),
                reset_contexts(self.backend.resets().subrange(old(self).backend.resets().len() as int, self.backend.resets().len() as int))
                    == open_contexts(slots@.subrange(0, i as int)),
                failed@ == failures(self.backend.resets().subrange(old(self).backend.resets().len() as int, self.backend.resets().len() as int)),
                self.same_setup(old(self)),
                self.handler == old(self).handler,
                self.backend.closes() == old(self).backend.closes(),
                self.backend.inits() == old(self).backend.inits(),
                self.backend.dev() == old(self).backend.dev(),
                self.backend.io() == old(self).backend.io(),
            decreases slots@.len() - i,
        {
            assert(slots@.subrange(0, i + 1).drop_last() =~= slots@.subrange(0, i as int));
            match slots[i] {
                Some(context) => {
                    let ghost pre = self.backend.resets();
                    let answer = if lin {
                        self.backend.reset_lin_chl(&context)
                    } else {
                        self.backend.reset_can_chl(&context)
                    };
                    proof {
                        let n = old(self).backend.resets().len() as int;
                        assert(self.backend.resets().subrange(n, self.backend.resets().len() as int).drop_last()
                            =~= pre.subrange(n, pre.len() as int));
                    }
                    if let Err(e) = answer {
                        failed.push(e);
                    }
                    proof {
                        let n = old(self).backend.resets().len() as int;
                        assert(self.backend.resets().subrange(0, n) =~= pre.subrange(0, n));
                        assert(self.backend.resets().subrange(n, self.backend.resets().len() as int)
                            =~= pre.subrange(n, pre.len() as int).push((context, answer)));
                        assert(reset_contexts(pre.subrange(n, pre.len() as int).push((context, answer)))
                            =~= reset_contexts(pre.subrange(n, pre.len() as int)).push(context));
                    }
                },
                None => {},
            }
            i = i + 1;
        }
        assert(slots@.subrange(0, slots@.len() as int) =~= slots@);
        failed
    }

    /// What initializing CAN channel `channel` of `before` with `cfg` leaves,
    /// with result `r`.
    pub open spec fn inited_from(before: Self, after: Self, channel: u8, cfg: ChannelConfig, r: Result<(), CanError>) -> bool {
        &&& after.same_setup(&before)
        &&& after.backend.closes() == before.backend.closes()
        &&& after.backend.dev() == before.backend.dev()
        &&& after.backend.io() == before.backend.io()
        &&& match before.handler {
            None => r matches Err(CanError::DeviceNotOpened) && after.handler is None
                && after.backend.resets() == before.backend.resets() && after.backend.inits() == before.backend.inits(),
            Some(h) => if channel >= h.info.chn {
                r matches Err(CanError::OtherError(_)) && after.handler == before.handler
                    && after.backend.resets() == before.backend.resets() && after.backend.inits() == before.backend.inits()
            } else {
                let h2 = after.handler->Some_0;
                let ok = table_of(before.tables.devices@, before.dev_type.spec_code()) matches Some(t)
                    && chl_cfg_ok(before.dev_type, &t, &cfg);
                let t = table_of(before.tables.devices@, before.dev_type.spec_code())->Some_0;
                let prior_ok = match h.cans@[channel as int] {
                    Some(c) => after.backend.resets().last().1 is Ok,
                    None => true,
                };
                &&& after.handler is Some
                &&& h2.device == h.device && h2.info == h.info && h2.lins@ == h.lins@
                &&& forall|i: int| 0 <= i < CHANNEL_SLOTS && i != channel ==> h2.cans@[i] == h.cans@[i]
                &&& match h.cans@[channel as int] {
                    Some(c) => after.backend.resets().len() == before.backend.resets().len() + 1 && after.backend.resets().drop_last() == before.backend.resets()
                        && after.backend.resets().last().0 == c
                        && (after.backend.resets().last().1 matches Err(e) ==> r == Err::<(), CanError>(e)),
                    None => after.backend.resets() == before.backend.resets(),
                }
                &&& r is Err ==> h2.cans@[channel as int] is None
                &&& !(ok && prior_ok) ==> r is Err && after.backend.inits() == before.backend.inits()
                &&& ok && prior_ok ==> {
                    let e = after.backend.inits().last();
                    &&& after.backend.inits().len() == before.backend.inits().len() + 1
                    &&& after.backend.inits().drop_last() == before.backend.inits()
                    &&& e.0 == (ZChannelContext { device: h.device, channel, chl_hdl: None, timestamp: 0 })
                    &&& e.1 == chl_cfg_of(before.dev_type, t, cfg)
                    &&& e.2 == r
                    &&& r is Ok ==> h2.cans@[channel as int] == Some(ZChannelContext {
                        device: h.device,
                        channel,
                        chl_hdl: e.3.chl_hdl,
                        timestamp: e.3.timestamp,
                    })
                }
            },
        }
    }

    /// Closes the device: every initialized CAN and LIN channel is reset, best
    /// effort (a failed reset does not stop the others), then the device itself;
    /// the device is Closed afterwards in any case. Closing a closed device
    /// changes nothing.
    /// The failures met on the way (each reset's, then the close's) are handed
    /// back for the caller to log; none of them stops the teardown.
    pub fn close(&mut self) -> (r: Vec<CanError>)
        requires
            old(self).wf(),
        ensures
            final(self).wf(),
            Self::closed_from(*old(self), *final(self)),
            old(self).handler is None ==> r@.len() == 0,
            old(self).handler is Some ==> r@ == failures(final(self).backend.resets().subrange(
                old(self).backend.resets().len() as int, final(self).backend.resets().len() as int)) + match final(self).backend.closes().last().1 {
                    Err(e) => seq![e],
                    Ok(_) => Seq::<CanError>::empty(),
                },
    {
        match self.handler.take() {
            Some(h) => {
                let ghost start = self.backend.resets();
                let mut failed = self.reset_all(&h.cans, false);
                let ghost mid = self.backend.resets();
                let mut more = self.reset_all(&h.lins, true);
                proof {
                    let a = start.len() as int;
                    let b = mid.len() as int;
                    let all = self.backend.resets();
                    assert(all.subrange(a, all.len() as int) =~= all.subrange(a, b) + all.subrange(b, all.len() as int));
                    assert(all.subrange(a, b) =~= mid.subrange(a, b));
                    lemma_failures_append(all.subrange(a, b), all.subrange(b, all.len() as int));
                }
                failed.append(&mut more);
                proof {
                    let a = start.len() as int;
                    let b = mid.len() as int;
                    let all = self.backend.resets();
                    assert(all.subrange(0, b) == mid);
                    assert(all.subrange(0, a) =~= mid.subrange(0, a));
                    assert(all.subrange(a, all.len() as int) =~= mid.subrange(a, b) + all.subrange(b, all.len() as int));
                    assert(reset_contexts(mid.subrange(a, b) + all.subrange(b, all.len() as int))
                        =~= reset_contexts(mid.subrange(a, b)) + reset_contexts(all.subrange(b, all.len() as int)));
                }
                let closed = self.backend.close(&h.device);
                assert(self.backend.closes().drop_last() =~= old(self).backend.closes());
                if let Err(e) = closed {
                    failed.push(e);
                }
                failed
            },
            None => Vec::new(),
        }
    }

    /// The live context of CAN channel `channel`; an error when the device is not
    /// opened or the channel not initialized.
    pub fn can_handler(&self, channel: u8) -> (r: Result<ZChannelContext, CanError>)
        requires
            self.wf(),
        ensures
            match self.handler {
                None => r matches Err(CanError::DeviceNotOpened),
                Some(h) => match h.cans@[channel as int] {
                    Some(c) => r == Ok::<ZChannelContext, CanError>(c),
                    None => r matches Err(CanError::ChannelNotOpened(_)),
                },
            },
    {
        match &self.handler {
            Some(h) => match h.find_can(channel) {
                Some(c) => Ok(c),
                None => Err(CanError::numbered_channel_not_opened("CAN", channel)),
            },
            None => Err(CanError::device_not_opened()),
        }
    }

    /// The live context of LIN channel `channel`; an error when the device is not
    /// opened or the channel not initialized.
    pub fn lin_handler(&self, channel: u8) -> (r: Result<ZChannelContext, CanError>)
        requires
            self.wf(),
        ensures
            match self.handler {
                None => r matches Err(CanError::DeviceNotOpened),
                Some(h) => match h.lins@[channel as int] {
                    Some(c) => r == Ok::<ZChannelContext, CanError>(c),
                    None => r matches Err(CanError::ChannelNotOpened(_)),
                },
            },
    {
        match &self.handler {
            Some(h) => match h.find_lin(channel) {
                Some(c) => Ok(c),
                None => Err(CanError::numbered_channel_not_opened("LIN", channel)),
            },
            None => Err(CanError::device_not_opened()),
        }
    }

    /// Initializes CAN channel `channel` with `cfg`. A live context of that
    /// channel is first reset and dropped (a failed reset ends the call); then the timing is
    /// resolved from the device type's table, the backend configuration is
    /// built, and the backend initializes the channel. On any failure the
    /// channel is left uninitialized.
    pub fn init_can_chl(&mut self, channel: u8, cfg: &ChannelConfig) -> (r: Result<(), CanError>)
        requires
            old(self).wf(),
            cfg.wf(),
        ensures
            final(self).wf(),
            Self::inited_from(*old(self), *final(self), channel, *cfg, r),
    {
        let mut h = match self.handler.take() {
            Some(h) => h,
            None => {
                return Err(CanError::device_not_opened());
            },
        };
        if channel >= h.info.chn {
            self.handler = Some(h);
            return Err(CanError::other_error("CAN channel out of length!"));
        }
        match h.find_can(channel) {
            Some(prior) => {
                let reset = self.backend.reset_can_chl(&prior);
                assert(self.backend.resets().drop_last() =~= old(self).backend.resets());
                h.remove_can(channel);
                if let Err(e) = reset {
                    self.handler = Some(h);
                    return Err(e);
                }
            },
            None => {},
        }
        let ctx = match self.tables.get(self.dev_type.code()) {
            Ok(ctx) => ctx,
            Err(e) => {
                self.handler = Some(h);
                return Err(e);
            },
        };
        let chl_cfg = match ZCanChlCfg::new(self.dev_type, ctx, cfg) {
            Ok(c) => c,
            Err(e) => {
                self.handler = Some(h);
                return Err(e);
            },
        };
        let mut context = ZChannelContext::new(h.device, channel);
        let ghost handed = context;
        let answer = self.backend.init_can_chl(&mut context, &chl_cfg);
        assert(self.backend.inits().drop_last() =~= old(self).backend.inits());
        if let Err(e) = answer {
            self.handler = Some(h);
            return Err(e);
        }
        let live = ZChannelContext {
            device: h.device,
            channel,
            chl_hdl: context.chl_hdl,
            timestamp: context.timestamp,
        };
        h.add_can(live);
        self.handler = Some(h);
        proof {
            let u: () = answer->Ok_0;
            assert(answer == Ok::<(), CanError>(u));
        }
        Ok(())
    }

    /// Resets CAN channel `channel` and drops its context; an error when the
    /// device is not opened, the channel not initialized, or the backend fails
    /// (the channel then stays initialized).
    pub fn reset_can_chl(&mut self, channel: u8) -> (r: Result<(), CanError>)
        requires
            old(self).wf(),
        ensures
            final(self).wf(),
            final(self).same_setup(old(self)),
            final(self).backend.closes() == old(self).backend.closes() && final(self).backend.inits() == old(self).backend.inits(),
            final(self).backend.dev() == old(self).backend.dev() && final(self).backend.io() == old(self).backend.io(),
            match old(self).handler {
                None => r matches Err(CanError::DeviceNotOpened) && final(self).handler is None
                    && final(self).backend.resets() == old(self).backend.resets(),
                Some(h) => match h.cans@[channel as int] {
                    None => r matches Err(CanError::ChannelNotOpened(_)) && final(self).handler == old(self).handler
                        && final(self).backend.resets() == old(self).backend.resets(),
                    Some(c) => {
                        let h2 = final(self).handler->Some_0;
                        &&& final(self).handler is Some
                        &&& final(self).backend.resets().len() == old(self).backend.resets().len() + 1
                        &&& final(self).backend.resets().drop_last() == old(self).backend.resets()
                        &&& final(self).backend.resets().last() == (c, r)
                        &&& h2.device == h.device && h2.info == h.info && h2.lins@ == h.lins@
                        &&& r is Ok ==> h2.cans@ == h.cans@.update(channel as int, None)
                        &&& r is Err ==> h2.cans@ == h.cans@
                    },
                },
            },
    {
        let mut h = match self.handler.take() {
            Some(h) => h,
            None => {
                return Err(CanError::device_not_opened());
            },
        };
        let context = match h.find_can(channel) {
            Some(c) => c,
            None => {
                self.handler = Some(h);
                return Err(CanError::numbered_channel_not_opened("CAN", channel));
            },
        };
        let ret = self.backend.reset_can_chl(&context);
        assert(self.backend.resets().drop_last() =~= old(self).backend.resets());
        match ret {
            Ok(u) => {
                h.remove_can(channel);
                self.handler = Some(h);
                Ok(u)
            },
            Err(e) => {
                self.handler = Some(h);
                Err(e)
            },
        }
    }
}

impl<B: ZDeviceApi + ZCanApi + ZLinApi> ZDriver<B> {
    /// The outcome owed by a channel operation on CAN channel `channel` before
    /// any backend call: not opened device, not initialized channel.
    pub open spec fn chl_checked<T>(&self, channel: u8, r: Result<T, CanError>) -> bool {
        match self.handler {
            None => r matches Err(CanError::DeviceNotOpened),
            Some(h) => h.cans@[channel as int] is None ==> r matches Err(CanError::ChannelNotOpened(_)),
        }
    }

    /// The status registers of CAN channel `channel`, as the backend reads them.
    pub fn read_can_chl_status(&mut self, channel: u8) -> (r: Result<ZCanChlStatus, CanError>)
        requires
            old(self).wf(),
        ensures
            final(self).wf(),
            final(self).io_only_dev(old(self)),
            old(self).chl_checked(channel, r),
            old(self).can_slot(channel) is None ==> final(self).backend.dev() == old(self).backend.dev(),
            old(self).can_slot(channel) matches Some(c) ==> final(self).backend.dev() == old(self).backend.dev().push(
                DevCall::Status { context: c, result: r }),
    {
        let context = self.can_handler(channel)?;
        let r = self.backend.read_can_chl_status(&context);
        r
    }

    /// The error information of CAN channel `channel`, as the backend reads it.
    pub fn read_can_chl_error(&mut self, channel: u8) -> (r: Result<ZCanChlError, CanError>)
        requires
            old(self).wf(),
        ensures
            final(self).wf(),
            final(self).io_only_dev(old(self)),
            old(self).chl_checked(channel, r),
            old(self).can_slot(channel) is None ==> final(self).backend.dev() == old(self).backend.dev(),
            old(self).can_slot(channel) matches Some(c) ==> final(self).backend.dev() == old(self).backend.dev().push(
                DevCall::ErrorInfo { context: c, result: r }),
    {
        let context = self.can_handler(channel)?;
        let r = self.backend.read_can_chl_error(&context);
        r
    }

    /// Clears the receive buffer of CAN channel `channel`.
    pub fn clear_can_buffer(&mut self, channel: u8) -> (r: Result<(), CanError>)
        requires
            old(self).wf(),
        ensures
            final(self).wf(),
            final(self).io_only_dev(old(self)),
            old(self).chl_checked(channel, r),
            old(self).can_slot(channel) is None ==> final(self).backend.dev() == old(self).backend.dev(),
            old(self).can_slot(channel) matches Some(c) ==> final(self).backend.dev() == old(self).backend.dev().push(
                DevCall::Clear { context: c, result: r }),
    {
        let context = self.can_handler(channel)?;
        let r = self.backend.clear_can_buffer(&context);
        r
    }

    /// The number of frames pending on `channel` in the queue `can_type`.
    pub fn get_can_num(&mut self, channel: u8, can_type: ZCanFrameType) -> (r: Result<u32, CanError>)
        requires
            old(self).wf(),
        ensures
            final(self).wf(),
            final(self).io_only(old(self)),
            old(self).chl_checked(channel, r),
            old(self).can_slot(channel) is None ==> final(self).backend.io() == old(self).backend.io(),
            old(self).can_slot(channel) is Some ==> final(self).backend.io() == old(self).backend.io().push(
                IoCall::Count { channel, queue: can_type, result: r }),
    {
        let context = self.can_handler(channel)?;
        let r = self.backend.get_can_num(&context, can_type);
        r
    }

    /// Receives up to `size` classic frames from `channel`; fewer when fewer were
    /// delivered. No timeout waits indefinitely.
    pub fn receive_can(&mut self, channel: u8, size: u32, timeout: Option<u32>) -> (r: Result<Vec<CanMessage>, CanError>)
        requires
            old(self).wf(),
        ensures
            final(self).wf(),
            final(self).io_only(old(self)),
            old(self).chl_checked(channel, r),
            old(self).can_slot(channel) is None ==> final(self).backend.io() == old(self).backend.io(),
            old(self).can_slot(channel) matches Some(ctx) ==> received(old(self).backend.io(), final(self).backend.io(), channel, false, size, wait_of(timeout), ctx, r),
    {
        let context = self.can_handler(channel)?;
        let wait = match timeout {
            Some(t) => t,
            None => WAIT_FOREVER,
        };
        let frames = self.backend.receive_can(&context, size, wait);
        assert(self.backend.io().drop_last() =~= old(self).backend.io());
        let frames = match frames {
            Ok(f) => f,
            Err(e) => {
                return Err(e);
            },
        };
        let r = collect_batch(frames, size, &context);
        assert(r@ =~= batch_of(seq_res(Ok::<Vec<CanMessage>, CanError>(frames))->Ok_0, size, context));
        Ok(r)
    }

    /// Receives up to `size` CAN-FD frames from `channel`; not supported on a
    /// device type without CAN-FD, and then nothing is handed to the backend.
    pub fn receive_canfd(&mut self, channel: u8, size: u32, timeout: Option<u32>) -> (r: Result<Vec<CanMessage>, CanError>)
        requires
            old(self).wf(),
        ensures
            final(self).wf(),
            final(self).io_only(old(self)),
            old(self).chl_checked(channel, r),
            old(self).can_slot(channel) is None || !old(self).dev_type.spec_canfd_support() ==> final(self).backend.io() == old(self).backend.io(),
            old(self).can_slot(channel) is Some && !old(self).dev_type.spec_canfd_support() ==> r matches Err(CanError::NotSupportedError),
            old(self).can_slot(channel) is Some && old(self).dev_type.spec_canfd_support() ==>
                received(old(self).backend.io(), final(self).backend.io(), channel, true, size, wait_of(timeout), old(self).can_slot(channel)->Some_0, r),
    {
        let context = self.can_handler(channel)?;
        if !self.dev_type.canfd_support() {
            return Err(CanError::NotSupportedError);
        }
        let wait = match timeout {
            Some(t) => t,
            None => WAIT_FOREVER,
        };
        let frames = self.backend.receive_canfd(&context, size, wait);
        assert(self.backend.io().drop_last() =~= old(self).backend.io());
        let frames = match frames {
            Ok(f) => f,
            Err(e) => {
                return Err(e);
            },
        };
        let r = collect_batch(frames, size, &context);
        assert(r@ =~= batch_of(seq_res(Ok::<Vec<CanMessage>, CanError>(frames))->Ok_0, size, context));
        Ok(r)
    }

    /// Transmits `frames` on `channel` in order; the result is how many the
    /// backend accepted, which may be fewer.
    pub fn transmit_can(&mut self, channel: u8, frames: Vec<CanMessage>) -> (r: Result<u32, CanError>)
        requires
            old(self).wf(),
        ensures
            final(self).wf(),
            final(self).io_only(old(self)),
            old(self).chl_checked(channel, r),
            old(self).can_slot(channel) is None ==> final(self).backend.io() == old(self).backend.io(),
            old(self).can_slot(channel) is Some ==> transmitted(old(self).backend.io(), final(self).backend.io(), channel, false, frames@, r),
    {
        let context = self.can_handler(channel)?;
        let ghost sent = frames@;
        let len = frames.len();
        let reported = self.backend.transmit_can(&context, frames);
        assert(self.backend.io().drop_last() =~= old(self).backend.io());
        let n = match reported {
            Ok(n) => n,
            Err(e) => {
                return Err(e);
            },
        };
        Ok(accepted_count(n, len))
    }

    /// Transmits CAN-FD `frames` on `channel`; not supported on a device type
    /// without CAN-FD, and then nothing is handed to the backend.
    pub fn transmit_canfd(&mut self, channel: u8, frames: Vec<CanMessage>) -> (r: Result<u32, CanError>)
        requires
            old(self).wf(),
        ensures
            final(self).wf(),
            final(self).io_only(old(self)),
            old(self).chl_checked(channel, r),
            old(self).can_slot(channel) is None || !old(self).dev_type.spec_canfd_support() ==> final(self).backend.io() == old(self).backend.io(),
            old(self).can_slot(channel) is Some && !old(self).dev_type.spec_canfd_support() ==> r matches Err(CanError::NotSupportedError),
            old(self).can_slot(channel) is Some && old(self).dev_type.spec_canfd_support() ==>
                transmitted(old(self).backend.io(), final(self).backend.io(), channel, true, frames@, r),
    {
        let context = self.can_handler(channel)?;
        if !self.dev_type.canfd_support() {
            return Err(CanError::NotSupportedError);
        }
        let ghost sent = frames@;
        let len = frames.len();
        let reported = self.backend.transmit_canfd(&context, frames);
        assert(self.backend.io().drop_last() =~= old(self).backend.io());
        let n = match reported {
            Ok(n) => n,
            Err(e) => {
                return Err(e);
            },
        };
        Ok(accepted_count(n, len))
    }

    /// Counts what is pending in one queue of an initialized channel and, when
    /// anything is, receives that many frames from it.
    fn drain(&mut self, channel: u8, fd: bool, timeout: Option<u32>) -> (r: Result<Vec<CanMessage>, CanError>)
        requires
            old(self).wf(),
            old(self).can_slot(channel) is Some,
            fd ==> old(self).dev_type.spec_canfd_support(),
        ensures
            final(self).wf(),
            final(self).io_only(old(self)),
            final(self).backend.io().len() >= old(self).backend.io().len(),
            final(self).backend.io().subrange(0, old(self).backend.io().len() as int) == old(self).backend.io(),
            drained(final(self).backend.io().subrange(old(self).backend.io().len() as int, final(self).backend.io().len() as int),
                channel, fd, wait_of(timeout), old(self).can_slot(channel)->Some_0, seq_res(r)),
    {
        let ghost start = self.backend.io();
        let queue = if fd { ZCanFrameType::CANFD } else { ZCanFrameType::CAN };
        let n = self.get_can_num(channel, queue);
        let ghost d1 = self.backend.io().subrange(start.len() as int, self.backend.io().len() as int);
        assert(d1 =~= seq![IoCall::Count { channel, queue, result: n }]);
        assert(self.backend.io().subrange(0, start.len() as int) =~= start);
        let n = match n {
            Ok(n) => n,
            Err(e) => {
                return Err(e);
            },
        };
        if n == 0 {
            return Ok(Vec::new());
        }
        let ghost mid = self.backend.io();
        let r = if fd { self.receive_canfd(channel, n, timeout) } else { self.receive_can(channel, n, timeout) };
        assert(self.backend.io().subrange(start.len() as int, self.backend.io().len() as int) =~= d1.push(self.backend.io().last()));
        assert(self.backend.io().subrange(0, start.len() as int) =~= start);
        r
    }

    /// Receives what is pending on `channel`: the classic frames, then, on a
    /// CAN-FD device, the CAN-FD frames. The CAN-FD queue is not consulted on a
    /// device without CAN-FD.
    pub fn receive(&mut self, channel: u8, timeout: Option<u32>) -> (r: Result<Vec<CanMessage>, CanError>)
        requires
            old(self).wf(),
        ensures
            final(self).wf(),
            final(self).io_only(old(self)),
            old(self).chl_checked(channel, r),
            old(self).can_slot(channel) is None ==> final(self).backend.io() == old(self).backend.io(),
            old(self).can_slot(channel) matches Some(ctx) ==> {
                &&& final(self).backend.io().len() >= old(self).backend.io().len()
                &&& final(self).backend.io().subrange(0, old(self).backend.io().len() as int) == old(self).backend.io()
                &&& received_all(final(self).backend.io().subrange(old(self).backend.io().len() as int, final(self).backend.io().len() as int),
                    channel, old(self).dev_type.spec_canfd_support(), wait_of(timeout), ctx, seq_res(r))
            },
    {
        let context = self.can_handler(channel)?;
        let ghost start = self.backend.io();
        let can = self.drain(channel, false, timeout);
        let ghost after_can = self.backend.io();
        let ghost d1 = after_can.subrange(start.len() as int, after_can.len() as int);
        let ghost wait = wait_of(timeout);
        let ghost fd_dev = self.dev_type.spec_canfd_support();
        let mut results = match can {
            Ok(v) => v,
            Err(e) => {
                proof {
                    assert(d1.subrange(0, drain_len(d1)) =~= d1);
                    assert(d1.subrange(drain_len(d1), d1.len() as int) =~= Seq::<IoCall>::empty());
                    assert(drained(d1.subrange(0, drain_len(d1)), channel, false, wait, context, seq_res(can)));
                }
                return Err(e);
            },
        };
        let ghost first = results@;
        if self.dev_type.canfd_support() {
            let fd = self.drain(channel, true, timeout);
            let ghost d2 = self.backend.io().subrange(after_can.len() as int, self.backend.io().len() as int);
            let ghost d = self.backend.io().subrange(start.len() as int, self.backend.io().len() as int);
            proof {
                assert(d =~= d1 + d2);
                assert(d.subrange(0, drain_len(d)) =~= d1);
                assert(d.subrange(drain_len(d), d.len() as int) =~= d2);
                assert(self.backend.io().subrange(0, start.len() as int) =~= start);
                assert(drained(d.subrange(0, drain_len(d)), channel, false, wait, context, seq_res(can)));
                assert(drained(d.subrange(drain_len(d), d.len() as int), channel, true, wait, context, seq_res(fd)));
            }
            let mut more = match fd {
                Ok(v) => v,
                Err(e) => {
                    return Err(e);
                },
            };
            let ghost second = more@;
            results.append(&mut more);
            proof {
                assert(results@ =~= first + second);
            }
        } else {
            proof {
                assert(d1.subrange(0, drain_len(d1)) =~= d1);
                assert(d1.subrange(drain_len(d1), d1.len() as int) =~= Seq::<IoCall>::empty());
                assert(drained(d1.subrange(0, drain_len(d1)), channel, false, wait, context, seq_res(can)));
            }
        }
        Ok(results)
    }

    /// Transmits one frame on the channel it names, as a one-frame batch: to
    /// the classic queue for a CAN frame, to the CAN-FD queue for a CAN-FD frame.
    /// A CAN-XL frame is not supported.
    pub fn transmit(&mut self, msg: CanMessage, timeout: Option<u32>) -> (r: Result<(), CanError>)
        requires
            old(self).wf(),
        ensures
            final(self).wf(),
            final(self).io_only(old(self)),
            msg.can_type == CanType::CanXl ==> (r matches Err(CanError::NotSupportedError) && final(self).backend.io() == old(self).backend.io()),
            msg.can_type != CanType::CanXl ==> old(self).chl_checked(msg.channel, r),
            msg.can_type == CanType::CanFd && old(self).can_slot(msg.channel) is Some && !old(self).dev_type.spec_canfd_support()
                ==> (r matches Err(CanError::NotSupportedError) && final(self).backend.io() == old(self).backend.io()),
            old(self).can_slot(msg.channel) is Some
                && (msg.can_type == CanType::Can || (msg.can_type == CanType::CanFd && old(self).dev_type.spec_canfd_support()))
                ==> {
                &&& final(self).backend.io().len() == old(self).backend.io().len() + 1
                &&& final(self).backend.io().drop_last() == old(self).backend.io()
                &&& final(self).backend.io().last() matches IoCall::Transmit { channel, fd, frames, result }
                &&& channel == msg.channel
                &&& fd == (msg.can_type == CanType::CanFd)
                &&& frames == seq![msg]
                &&& (r is Ok <==> result is Ok)
                &&& (result matches Err(e) ==> r == Err::<(), CanError>(e))
            },
    {
        let channel = msg.channel;
        let ghost m = msg;
        match msg.can_type {
            CanType::Can => {
                let batch = vec![msg];
                assert(batch@ =~= seq![m]);
                match self.transmit_can(channel, batch) {
                    Ok(_) => Ok(()),
                    Err(e) => Err(e),
                }
            },
            CanType::CanFd => {
                let batch = vec![msg];
                assert(batch@ =~= seq![m]);
                match self.transmit_canfd(channel, batch) {
                    Ok(_) => Ok(()),
                    Err(e) => Err(e),
                }
            },
            CanType::CanXl => Err(CanError::NotSupportedError),
        }
    }

    /// The numbers of the initialized CAN channels, ascending; empty while the
    /// device is not opened.
    pub fn opened_channels(&self) -> (r: Vec<u8>)
        requires
            self.wf(),
        ensures
            match self.handler {
                Some(h) => r@ == open_contexts(h.cans@).map_values(|c: ZChannelContext| c.channel),
                None => r@.len() == 0,
            },
    {
        let mut r: Vec<u8> = Vec::new();
        match &self.handler {
            Some(h) => {
                let mut i: usize = 0;
                assert(h.cans@.subrange(0, 0) =~= Seq::<Option<ZChannelContext>>::empty());
                while i < h.cans.len()
                    invariant
                        i <= h.cans@.len(),
                        r@ == open_contexts(h.cans@.subrange(0, i as int)).map_values(|c: ZChannelContext| c.channel),
                    decreases h.cans@.len() - i,
                {
                    assert(h.cans@.subrange(0, i + 1).drop_last() =~= h.cans@.subrange(0, i as int));
                    match h.cans[i] {
                        Some(c) => {
                            r.push(c.channel);
                            assert(r@ =~= open_contexts(h.cans@.subrange(0, i + 1)).map_values(|c: ZChannelContext| c.channel));
                        },
                        None => {},
                    }
                    i = i + 1;
                }
                assert(h.cans@.subrange(0, h.cans@.len() as int) =~= h.cans@);
            },
            None => {},
        }
        r
    }

    /// Whether no CAN channel is initialized.
    pub fn is_closed(&self) -> (r: bool)
        requires
            self.wf(),
        ensures
            r == match self.handler {
                Some(h) => open_contexts(h.cans@).len() == 0,
                None => true,
            },
    {
        self.opened_channels().len() == 0
    }

    /// Closes the device.
    pub fn shutdown(&mut self)
        requires
            old(self).wf(),
        ensures
            final(self).wf(),
            Self::closed_from(*old(self), *final(self)),
    {
        self.close();
    }

    /// Whether the device is online, as the backend answers.
    pub fn is_online(&mut self) -> (r: Result<bool, CanError>)
        requires
            old(self).wf(),
        ensures
            final(self).wf(),
            final(self).io_only_dev(old(self)),
            old(self).handler is None ==> (r matches Err(CanError::DeviceNotOpened) && final(self).backend.dev() == old(self).backend.dev()),
            old(self).handler matches Some(h) ==> final(self).backend.dev() == old(self).backend.dev().push(
                DevCall::Online { context: h.device, result: r }),
    {
        let device = match &self.handler {
            Some(h) => h.device,
            None => {
                return Err(CanError::device_not_opened());
            },
        };
        let r = self.backend.is_online(&device);
        r
    }

    /// Initializes LIN channel `channel`; not supported on a device type
    /// without LIN. A live context of that channel is first reset and dropped
    /// (a failed reset ends the call); the result is the backend's answer.
    pub fn init_lin_chl(&mut self, channel: u8, cfg: &ZLinChlCfg) -> (r: Result<(), CanError>)
        requires
            old(self).wf(),
        ensures
            final(self).wf(),
            final(self).same_setup(old(self)),
            final(self).backend.closes() == old(self).backend.closes() && final(self).backend.inits() == old(self).backend.inits() && final(self).backend.io() == old(self).backend.io(),
            !old(self).dev_type.spec_lin_support() ==> (r matches Err(CanError::NotSupportedError)
                && *final(self) == *old(self)),
            old(self).dev_type.spec_lin_support() && old(self).handler is None
                ==> (r matches Err(CanError::DeviceNotOpened) && *final(self) == *old(self)),
            old(self).dev_type.spec_lin_support() && old(self).handler is Some ==> {
                let h = old(self).handler->Some_0;
                let h2 = final(self).handler->Some_0;
                let prior_ok = match h.lins@[channel as int] {
                    Some(c) => final(self).backend.resets().last().1 is Ok,
                    None => true,
                };
                &&& final(self).handler is Some
                &&& h2.device == h.device && h2.info == h.info && h2.cans@ == h.cans@
                &&& forall|i: int| 0 <= i < CHANNEL_SLOTS && i != channel ==> h2.lins@[i] == h.lins@[i]
                &&& match h.lins@[channel as int] {
                    Some(c) => final(self).backend.resets().len() == old(self).backend.resets().len() + 1
                        && final(self).backend.resets().drop_last() == old(self).backend.resets() && final(self).backend.resets().last().0 == c
                        && (final(self).backend.resets().last().1 matches Err(e) ==> r == Err::<(), CanError>(e)),
                    None => final(self).backend.resets() == old(self).backend.resets(),
                }
                &&& r is Err ==> h2.lins@[channel as int] is None
                &&& !prior_ok ==> final(self).backend.dev() == old(self).backend.dev()
                &&& prior_ok ==> {
                    &&& final(self).backend.dev().len() == old(self).backend.dev().len() + 1
                    &&& final(self).backend.dev().drop_last() == old(self).backend.dev()
                    &&& match final(self).backend.dev().last() {
                        DevCall::LinInit { context, cfg: c, result, after } => {
                            &&& context == (ZChannelContext { device: h.device, channel, chl_hdl: None, timestamp: 0 })
                            &&& c == *cfg
                            &&& result == r
                            &&& r is Ok ==> h2.lins@[channel as int] == Some(ZChannelContext {
                                device: h.device,
                                channel,
                                chl_hdl: after.chl_hdl,
                                timestamp: after.timestamp,
                            })
                        },
                        _ => false,
                    }
                }
            },
    {
        lin_support(self.dev_type)?;
        let mut h = match self.handler.take() {
            Some(h) => h,
            None => {
                return Err(CanError::device_not_opened());
            },
        };
        match h.find_lin(channel) {
            Some(prior) => {
                let reset = self.backend.reset_lin_chl(&prior);
                assert(self.backend.resets().drop_last() =~= old(self).backend.resets());
                h.remove_lin(channel);
                if let Err(e) = reset {
                    self.handler = Some(h);
                    return Err(e);
                }
            },
            None => {},
        }
        let mut context = ZChannelContext::new(h.device, channel);
        let ghost handed = context;
        let answer = self.backend.init_lin_chl(&mut context, cfg);
        assert(self.backend.dev().drop_last() =~= old(self).backend.dev());
        if let Err(e) = answer {
            self.handler = Some(h);
            return Err(e);
        }
        let live = ZChannelContext {
            device: h.device,
            channel,
            chl_hdl: context.chl_hdl,
            timestamp: context.timestamp,
        };
        h.add_lin(live);
        self.handler = Some(h);
        proof {
            let u: () = answer->Ok_0;
            assert(answer == Ok::<(), CanError>(u));
        }
        Ok(())
    }

    /// Clears the receive buffer of LIN channel `channel`.
    pub fn clear_lin_buffer(&mut self, channel: u8) -> (r: Result<(), CanError>)
        requires
            old(self).wf(),
        ensures
            final(self).wf(),
            final(self).io_only_dev(old(self)),
            old(self).handler is None ==> r matches Err(CanError::DeviceNotOpened),
            old(self).handler is Some && old(self).lin_slot(channel) is None ==> r matches Err(CanError::ChannelNotOpened(_)),
            old(self).lin_slot(channel) is None ==> final(self).backend.dev() == old(self).backend.dev(),
            old(self).lin_slot(channel) matches Some(c) ==> final(self).backend.dev() == old(self).backend.dev().push(
                DevCall::LinClear { context: c, result: r }),
    {
        let context = self.lin_handler(channel)?;
        self.backend.clear_lin_buffer(&context)
    }

    /// The number of frames pending on LIN channel `channel`.
    pub fn get_lin_num(&mut self, channel: u8) -> (r: Result<u32, CanError>)
        requires
            old(self).wf(),
        ensures
            final(self).wf(),
            final(self).io_only_dev(old(self)),
            old(self).handler is None ==> r matches Err(CanError::DeviceNotOpened),
            old(self).handler is Some && old(self).lin_slot(channel) is None ==> r matches Err(CanError::ChannelNotOpened(_)),
            old(self).lin_slot(channel) is None ==> final(self).backend.dev() == old(self).backend.dev(),
            old(self).lin_slot(channel) matches Some(c) ==> final(self).backend.dev() == old(self).backend.dev().push(
                DevCall::LinCount { context: c, result: r }),
    {
        let context = self.lin_handler(channel)?;
        self.backend.get_lin_num(&context)
    }

    /// The timestamp base of CAN channel `channel`, as its backend set it.
    pub fn timestamp(&self, channel: u8) -> (r: Result<u64, CanError>)
        requires
            self.wf(),
        ensures
            self.chl_checked(channel, r),
            self.can_slot(channel) matches Some(c) ==> r == Ok::<u64, CanError>(c.timestamp),
    {
        let context = self.can_handler(channel)?;
        Ok(context.timestamp)
    }

    /// Resets LIN channel `channel` and drops its context.
    pub fn reset_lin_chl(&mut self, channel: u8) -> (r: Result<(), CanError>)
        requires
            old(self).wf(),
        ensures
            final(self).wf(),
            final(self).same_setup(old(self)),
            old(self).handler is None ==> r matches Err(CanError::DeviceNotOpened),
            old(self).handler is Some && old(self).lin_slot(channel) is None
                ==> r matches Err(CanError::ChannelNotOpened(_)),
            old(self).handler matches Some(h) ==> {
                let h2 = final(self).handler->Some_0;
                &&& final(self).handler is Some
                &&& h2.device == h.device && h2.info == h.info && h2.cans@ == h.cans@
                &&& r is Ok ==> h2.lins@ == h.lins@.update(channel as int, None)
                &&& r is Err ==> h2.lins@ == h.lins@
            },
            old(self).lin_slot(channel) matches Some(c) ==> final(self).backend.resets().len() == old(self).backend.resets().len() + 1
                && final(self).backend.resets().drop_last() == old(self).backend.resets() && final(self).backend.resets().last() == (c, r),
            old(self).lin_slot(channel) is None ==> final(self).backend.resets() == old(self).backend.resets(),
    {
        let mut h = match self.handler.take() {
            Some(h) => h,
            None => {
                return Err(CanError::device_not_opened());
            },
        };
        let context = match h.find_lin(channel) {
            Some(c) => c,
            None => {
                self.handler = Some(h);
                return Err(CanError::numbered_channel_not_opened("LIN", channel));
            },
        };
        let ret = self.backend.reset_lin_chl(&context);
        assert(self.backend.resets().drop_last() =~= old(self).backend.resets());
        match ret {
            Ok(u) => {
                h.remove_lin(channel);
                self.handler = Some(h);
                Ok(u)
            },
            Err(e) => {
                self.handler = Some(h);
                Err(e)
            },
        }
    }
}

/// Whether the bag map `m` holds `name` stored as a `T`.
pub open spec fn prop_present<T: OtherType>(m: Map<Seq<char>, OtherValue>, name: Seq<char>) -> bool {
    m.dom().contains(name) && m[name].spec_tag() == T::spec_tag()
}

impl DeviceBuilder {
    /// Builds and opens a device from this configuration, then initializes every
    /// configured channel. Fails, returning no device, when the library path,
    /// device type or device index is missing or stored under another type, when
    /// opening fails, or when any channel fails to initialize (the device is then
    /// closed again).
    pub fn build<B: ZDeviceApi + ZCanApi + ZLinApi>(self, api: B, tables: BitrateTables) -> (r: Result<ZDriver<B>, CanError>)
        requires
            self.wf(),
        ensures
            !(prop_present::<String>(self.others@, LIBPATH@)
                && prop_present::<ZCanDeviceType>(self.others@, DEVICE_TYPE@)
                && prop_present::<u32>(self.others@, DEVICE_INDEX@)
                && prop_ok::<DeriveInfo>(self.others@, DERIVE_INFO@)) ==> r is Err,
            r is Err && prop_present::<String>(self.others@, LIBPATH@)
                && prop_present::<ZCanDeviceType>(self.others@, DEVICE_TYPE@)
                && prop_present::<u32>(self.others@, DEVICE_INDEX@)
                && prop_ok::<DeriveInfo>(self.others@, DERIVE_INFO@) ==> {
                let dt = self.others@[DEVICE_TYPE@]->DeviceType_0;
                let e = r->Err_0;
                ||| !dt.spec_has_backend() && e is NotSupportedError
                ||| exists|d0: ZDriver<B>, d1: ZDriver<B>| {
                    &&& #[trigger] ZDriver::<B>::opened_from(d0, d1, Err::<(), CanError>(e))
                    &&& d0.backend.api_view() == api && d0.tables == tables && d0.handler is None
                    &&& d0.dev_type == dt && OtherValue::U32(d0.dev_idx) == self.others@[DEVICE_INDEX@]
                }
                ||| exists|j: int, mid: ZDriver<B>, after: ZDriver<B>| {
                    &&& 0 <= j < self.configs@.len()
                    &&& #[trigger] ZDriver::<B>::inited_from(mid, after, self.configs@[j].0, self.configs@[j].1, Err::<(), CanError>(e))
                    &&& mid.backend.api_view() == api && mid.tables == tables && mid.handler is Some && mid.dev_type == dt
                }
            },
            r matches Ok(d) ==> {
                &&& d.wf()
                &&& d.handler is Some
                &&& OtherValue::DeviceType(d.dev_type) == self.others@[DEVICE_TYPE@]
                &&& OtherValue::U32(d.dev_idx) == self.others@[DEVICE_INDEX@]
                &&& OtherValue::Str(d.libpath) == self.others@[LIBPATH@]
                &&& d.tables == tables
                &&& forall|j: int| 0 <= j < self.configs@.len() ==> d.can_slot(#[trigger] self.configs@[j].0) is Some
                &&& d.backend.inits().len() == self.configs@.len()
                &&& forall|j: int| 0 <= j < self.configs@.len() ==> {
                    &&& (#[trigger] d.backend.inits()[j]).0.channel == self.configs@[j].0
                    &&& d.backend.inits()[j].1 == chl_cfg_of(d.dev_type, table_of(tables.devices@, d.dev_type.spec_code())->Some_0, self.configs@[j].1)
                    &&& d.backend.inits()[j].2 is Ok
                }
            },
    {
        let libpath = match self.get_other::<String>(LIBPATH)? {
            Some(p) => p,
            None => {
                return Err(CanError::other_error("`libpath` not found"));
            },
        };
        let dev_type = match self.get_other::<ZCanDeviceType>(DEVICE_TYPE)? {
            Some(t) => t,
            None => {
                return Err(CanError::other_error("`device_type` not found"));
            },
        };
        assert(OtherValue::DeviceType(dev_type) == self.others@[DEVICE_TYPE@]);
        let dev_idx = match self.get_other::<u32>(DEVICE_INDEX)? {
            Some(i) => i,
            None => {
                return Err(CanError::other_error("`device_index` not found"));
            },
        };
        let derive = self.get_other::<DeriveInfo>(DERIVE_INFO)?;
        let mut device = ZDriver::new(api, libpath, dev_type, dev_idx, derive, tables);
        let ghost d0 = device;
        let opened = device.open();
        if let Err(e) = opened {
            proof {
                if dev_type.spec_has_backend() {
                    assert(ZDriver::<B>::opened_from(d0, device, Err::<(), CanError>(e)));
                }
            }
            return Err(e);
        }
        let configs = &self.configs;
        let mut i: usize = 0;
        while i < configs.len()
            invariant
                i <= configs@.len(),
                configs@ == self.configs@,
                forall|j: int| 0 <= j < configs@.len() ==> (#[trigger] configs@[j]).1.wf(),
                device.wf(),
                device.handler is Some,
                device.backend.api_view() == api,
                OtherValue::DeviceType(dev_type) == self.others@[DEVICE_TYPE@],
                device.dev_type == dev_type,
                device.dev_idx == dev_idx,
                device.libpath == libpath,
                device.tables == tables,
                forall|j: int| 0 <= j < i ==> device.can_slot(#[trigger] configs@[j].0) is Some,
                device.backend.inits().len() == i,
                forall|j: int| 0 <= j < i ==> {
                    &&& (#[trigger] device.backend.inits()[j]).0.channel == configs@[j].0
                    &&& device.backend.inits()[j].1 == chl_cfg_of(dev_type, table_of(tables.devices@, dev_type.spec_code())->Some_0, configs@[j].1)
                    &&& device.backend.inits()[j].2 is Ok
                },
            decreases configs@.len() - i,
        {
            let channel = configs[i].0;
            let ghost pre = device;
            let answer = device.init_can_chl(channel, &configs[i].1);
            if let Err(e) = answer {
                let ghost after = device;
                proof {
                    assert(ZDriver::<B>::inited_from(pre, after, configs@[i as int].0, configs@[i as int].1, Err::<(), CanError>(e)));
                    assert(OtherValue::DeviceType(dev_type) == self.others@[DEVICE_TYPE@]);
                    let j = i as int;
                    assert(0 <= j < self.configs@.len()
                        && ZDriver::<B>::inited_from(pre, after, self.configs@[j].0, self.configs@[j].1, Err::<(), CanError>(e))
                        && pre.backend.api_view() == api && pre.tables == tables && pre.handler is Some
                        && pre.dev_type == self.others@[DEVICE_TYPE@]->DeviceType_0);
                }
                device.close();
                return Err(e);
            }
            assert forall|j: int| 0 <= j < i + 1 implies device.can_slot(#[trigger] configs@[j].0) is Some by {
                if j < i {
                    assert(pre.can_slot(configs@[j].0) is Some);
                }
            }
            assert forall|j: int| 0 <= j < i + 1 implies {
                &&& (#[trigger] device.backend.inits()[j]).0.channel == configs@[j].0
                &&& device.backend.inits()[j].1 == chl_cfg_of(dev_type, table_of(tables.devices@, dev_type.spec_code())->Some_0, configs@[j].1)
                &&& device.backend.inits()[j].2 is Ok
            } by {
                if j < i {
                    assert(device.backend.inits()[j] == device.backend.inits().drop_last()[j]);
                    assert(pre.backend.inits()[j] == device.backend.inits().drop_last()[j]);
                }
            }
            i = i + 1;
        }
        Ok(device)
    }
}

/// Receives notice of transmitted and received frames; implemented by callers.
pub trait Listener {
    /// A frame with identifier `id` was transmitted on `channel`.
    fn on_frame_transmitted(&self, channel: u8, id: u32);

    /// Frames were received.
    fn on_frame_received(&self, frames: &Vec<CanMessage>);
}

/// The calling convention shared by all device families.
pub trait Device {
    /// Whether the device's state is consistent.
    spec fn ready(&self) -> bool;

    /// The numbers of the initialized channels.
    fn opened_channels(&self) -> Vec<u8>
        requires
            self.ready();

    fn is_closed(&self) -> bool
        requires
            self.ready();

    /// Transmits one frame on the channel it names.
    fn transmit(&mut self, msg: CanMessage, timeout: Option<u32>) -> (r: Result<(), CanError>)
        requires
            old(self).ready(),
        ensures
            final(self).ready();

    /// Receives the frames pending on `channel`.
    fn receive(&mut self, channel: u8, timeout: Option<u32>) -> (r: Result<Vec<CanMessage>, CanError>)
        requires
            old(self).ready(),
        ensures
            final(self).ready();

    /// Closes the device.
    fn shutdown(&mut self)
        requires
            old(self).ready(),
        ensures
            final(self).ready();
}

impl<B: ZDeviceApi + ZCanApi + ZLinApi> Device for ZDriver<B> {
    open spec fn ready(&self) -> bool {
        self.wf()
    }

    fn opened_channels(&self) -> Vec<u8> {
        ZDriver::opened_channels(self)
    }

    fn is_closed(&self) -> bool {
        ZDriver::is_closed(self)
    }

    fn transmit(&mut self, msg: CanMessage, timeout: Option<u32>) -> (r: Result<(), CanError>) {
        ZDriver::transmit(self, msg, timeout)
    }

    fn receive(&mut self, channel: u8, timeout: Option<u32>) -> (r: Result<Vec<CanMessage>, CanError>) {
        ZDriver::receive(self, channel, timeout)
    }

    fn shutdown(&mut self) {
        ZDriver::shutdown(self)
    }
}

/// The CAN channel operations of a device.
pub trait ZCan {
    spec fn ready(&self) -> bool;

    fn init_can_chl(&mut self, channel: u8, cfg: &ChannelConfig) -> (r: Result<(), CanError>)
        requires
            old(self).ready(),
            cfg.wf(),
        ensures
            final(self).ready();

    fn reset_can_chl(&mut self, channel: u8) -> (r: Result<(), CanError>)
        requires
            old(self).ready(),
        ensures
            final(self).ready();

    fn read_can_chl_status(&mut self, channel: u8) -> (r: Result<ZCanChlStatus, CanError>)
        requires
            old(self).ready(),
        ensures
            final(self).ready();

    fn read_can_chl_error(&mut self, channel: u8) -> (r: Result<ZCanChlError, CanError>)
        requires
            old(self).ready(),
        ensures
            final(self).ready();

    fn clear_can_buffer(&mut self, channel: u8) -> (r: Result<(), CanError>)
        requires
            old(self).ready(),
        ensures
            final(self).ready();

    fn get_can_num(&mut self, channel: u8, can_type: ZCanFrameType) -> (r: Result<u32, CanError>)
        requires
            old(self).ready(),
        ensures
            final(self).ready();

    fn receive_can(&mut self, channel: u8, size: u32, timeout: Option<u32>) -> (r: Result<Vec<CanMessage>, CanError>)
        requires
            old(self).ready(),
        ensures
            final(self).ready();

    fn transmit_can(&mut self, channel: u8, frames: Vec<CanMessage>) -> (r: Result<u32, CanError>)
        requires
            old(self).ready(),
        ensures
            final(self).ready();

    fn receive_canfd(&mut self, channel: u8, size: u32, timeout: Option<u32>) -> (r: Result<Vec<CanMessage>, CanError>)
        requires
            old(self).ready(),
        ensures
            final(self).ready(),
    {
        Err(CanError::NotSupportedError)
    }

    fn transmit_canfd(&mut self, channel: u8, frames: Vec<CanMessage>) -> (r: Result<u32, CanError>)
        requires
            old(self).ready(),
        ensures
            final(self).ready(),
    {
        Err(CanError::NotSupportedError)
    }
}

impl<B: ZDeviceApi + ZCanApi + ZLinApi> ZCan for ZDriver<B> {
    open spec fn ready(&self) -> bool {
        self.wf()
    }

    fn init_can_chl(&mut self, channel: u8, cfg: &ChannelConfig) -> (r: Result<(), CanError>) {
        ZDriver::init_can_chl(self, channel, cfg)
    }

    fn reset_can_chl(&mut self, channel: u8) -> (r: Result<(), CanError>) {
        ZDriver::reset_can_chl(self, channel)
    }

    fn read_can_chl_status(&mut self, channel: u8) -> (r: Result<ZCanChlStatus, CanError>) {
        ZDriver::read_can_chl_status(self, channel)
    }

    fn read_can_chl_error(&mut self, channel: u8) -> (r: Result<ZCanChlError, CanError>) {
        ZDriver::read_can_chl_error(self, channel)
    }

    fn clear_can_buffer(&mut self, channel: u8) -> (r: Result<(), CanError>) {
        ZDriver::clear_can_buffer(self, channel)
    }

    fn get_can_num(&mut self, channel: u8, can_type: ZCanFrameType) -> (r: Result<u32, CanError>) {
        ZDriver::get_can_num(self, channel, can_type)
    }

    fn receive_can(&mut self, channel: u8, size: u32, timeout: Option<u32>) -> (r: Result<Vec<CanMessage>, CanError>) {
        ZDriver::receive_can(self, channel, size, timeout)
    }

    fn transmit_can(&mut self, channel: u8, frames: Vec<CanMessage>) -> (r: Result<u32, CanError>) {
        ZDriver::transmit_can(self, channel, frames)
    }

    fn receive_canfd(&mut self, channel: u8, size: u32, timeout: Option<u32>) -> (r: Result<Vec<CanMessage>, CanError>) {
        ZDriver::receive_canfd(self, channel, size, timeout)
    }

    fn transmit_canfd(&mut self, channel: u8, frames: Vec<CanMessage>) -> (r: Result<u32, CanError>) {
        ZDriver::transmit_canfd(self, channel, frames)
    }
}

/// The cloud telemetry operations of a device; not supported unless the device
/// type offers them.
pub trait ZCloud {
    fn connect_server(&self, username: &str, password: &str) -> Result<(), CanError> {
        Err(CanError::NotSupportedError)
    }

    fn is_connected_server(&self) -> Result<bool, CanError> {
        Err(CanError::NotSupportedError)
    }

    fn disconnect_server(&self) -> Result<(), CanError> {
        Err(CanError::NotSupportedError)
    }
}

impl<B: ZDeviceApi + ZCanApi + ZLinApi + ZCloudApi> ZCloud for ZDriver<B> {
    fn connect_server(&self, username: &str, password: &str) -> Result<(), CanError> {
        cloud_support(self.dev_type)?;
        self.backend.connect_server(username, password)
    }

    fn is_connected_server(&self) -> Result<bool, CanError> {
        cloud_support(self.dev_type)?;
        self.backend.is_connected_server()
    }

    fn disconnect_server(&self) -> Result<(), CanError> {
        cloud_support(self.dev_type)?;
        self.backend.disconnect_server()
    }
}

/// The timeout handed to the backend: the caller's, or waiting indefinitely.
pub open spec fn wait_of(timeout: Option<u32>) -> u32 {
    match timeout {
        Some(t) => t,
        None => WAIT_FOREVER,
    }
}

/// A result holding a vector, with the vector seen as a sequence.
pub open spec fn seq_res(r: Result<Vec<CanMessage>, CanError>) -> Result<Seq<CanMessage>, CanError> {
    match r {
        Ok(v) => Ok(v@),
        Err(e) => Err(e),
    }
}

/// At most `size` frames of the raw batch `raw`, each stamped for `context`.
pub open spec fn batch_of(raw: Seq<CanMessage>, size: u32, context: ZChannelContext) -> Seq<CanMessage> {
    let n = if raw.len() <= size { raw.len() } else { size as nat };
    Seq::new(n, |i: int| stamped(raw[i], context))
}

/// The receive result owed for a raw answer `result` to a request of `size` frames.
pub open spec fn batch_res(result: Result<Seq<CanMessage>, CanError>, size: u32, context: ZChannelContext) -> Result<Seq<CanMessage>, CanError> {
    match result {
        Ok(raw) => Ok(batch_of(raw, size, context)),
        Err(e) => Err(e),
    }
}

/// `after` is `before` with one receive of up to `size` frames from `channel`
/// handed to the backend, and `r` is what that answer owes.
pub open spec fn received(
    before: Seq<IoCall>,
    after: Seq<IoCall>,
    channel: u8,
    fd: bool,
    size: u32,
    wait: u32,
    context: ZChannelContext,
    r: Result<Vec<CanMessage>, CanError>,
) -> bool {
    &&& after.len() == before.len() + 1
    &&& after.drop_last() == before
    &&& match after.last() {
        IoCall::Receive { channel: c, fd: f, size: s, timeout, result } => c == channel && f == fd && s == size
            && timeout == wait && seq_res(r) == batch_res(result, size, context),
        _ => false,
    }
}

/// `after` is `before` with one transmit of `frames` on `channel` handed to the
/// backend, and `r` is its reported count capped at the batch length.
pub open spec fn transmitted(before: Seq<IoCall>, after: Seq<IoCall>, channel: u8, fd: bool, frames: Seq<CanMessage>, r: Result<u32, CanError>) -> bool {
    &&& after.len() == before.len() + 1
    &&& after.drop_last() == before
    &&& match after.last() {
        IoCall::Transmit { channel: c, fd: f, frames: fs, result } => c == channel && f == fd && fs == frames
            && match result {
                Ok(n) => r == Ok::<u32, CanError>(if n as int <= frames.len() { n } else { frames.len() as u32 }),
                Err(e) => r == Err::<u32, CanError>(e),
            },
        _ => false,
    }
}

/// How many records a drain of one queue leaves: the count, and the receive
/// when the count was positive.
pub open spec fn drain_len(d: Seq<IoCall>) -> int {
    match d[0] {
        IoCall::Count { result, .. } => match result {
            Ok(n) => if n > 0 { 2 } else { 1 },
            Err(_) => 1,
        },
        _ => 1,
    }
}

/// `d` records a drain of the classic (`fd` false) or CAN-FD queue of `channel`
/// whose result is `r`: the pending count, then, when positive, a receive of
/// exactly that many frames; an empty batch when nothing is pending.
pub open spec fn drained(d: Seq<IoCall>, channel: u8, fd: bool, wait: u32, context: ZChannelContext, r: Result<Seq<CanMessage>, CanError>) -> bool {
    &&& d.len() >= 1
    &&& d.len() == drain_len(d)
    &&& match d[0] {
        IoCall::Count { channel: c, queue, result } => {
            &&& c == channel
            &&& queue == (if fd { ZCanFrameType::CANFD } else { ZCanFrameType::CAN })
            &&& match result {
                Err(e) => r == Err::<Seq<CanMessage>, CanError>(e),
                Ok(n) => if n == 0 {
                    r == Ok::<Seq<CanMessage>, CanError>(Seq::empty())
                } else {
                    match d[1] {
                        IoCall::Receive { channel: c2, fd: f2, size, timeout, result: raw } => c2 == channel && f2 == fd
                            && size == n && timeout == wait && r == batch_res(raw, n, context),
                        _ => false,
                    }
                },
            }
        },
        _ => false,
    }
}

/// `d` records a full receive on `channel` whose result is `r`: a drain of the
/// classic queue, then, on a CAN-FD device and only there, a drain of the
/// CAN-FD queue; the result is the classic batch followed by the CAN-FD batch,
/// or the first failure.
pub open spec fn received_all(d: Seq<IoCall>, channel: u8, canfd: bool, wait: u32, context: ZChannelContext, r: Result<Seq<CanMessage>, CanError>) -> bool {
    let k = drain_len(d);
    let d1 = d.subrange(0, k);
    let d2 = d.subrange(k, d.len() as int);
    &&& d.len() >= 1
    &&& k <= d.len()
    &&& exists|r1: Result<Seq<CanMessage>, CanError>| #[trigger] drained(d1, channel, false, wait, context, r1) && match r1 {
        Err(e) => d2.len() == 0 && r == Err::<Seq<CanMessage>, CanError>(e),
        Ok(s1) => if canfd {
            exists|r2: Result<Seq<CanMessage>, CanError>| #[trigger] drained(d2, channel, true, wait, context, r2) && match r2 {
                Err(e) => r == Err::<Seq<CanMessage>, CanError>(e),
                Ok(s2) => r == Ok::<Seq<CanMessage>, CanError>(s1 + s2),
            }
        } else {
            d2.len() == 0 && r == Ok::<Seq<CanMessage>, CanError>(s1)
        },
    }
}

/// A device-relative timestamp `t` counted from `base`, saturating at the
/// largest value.
pub open spec fn rebase(base: u64, t: u64) -> u64 {
    if base + t <= u64::MAX {
        (base + t) as u64
    } else {
        u64::MAX
    }
}

/// A frame delivered by the backend on the channel of `context`: stamped with
/// the channel number, marked received, its timestamp rebased.
pub open spec fn stamped(f: CanMessage, context: ZChannelContext) -> CanMessage {
    CanMessage {
        channel: context.channel,
        direct: CanDirect::Receive,
        timestamp: rebase(context.timestamp, f.timestamp),
        ..f
    }
}

/// The frames of a batched receive that asked for `size` frames: at most `size`
/// of those the backend delivered, in order, each stamped for the channel of
/// `context`. Fewer than `size` is a short count, not a failure.
pub fn collect_batch(frames: Vec<CanMessage>, size: u32, context: &ZChannelContext) -> (r: Vec<CanMessage>)
    ensures
        r@.len() == if frames@.len() <= size { frames@.len() } else { size as nat },
        forall|i: int| 0 <= i < r@.len() ==> r@[i] == stamped(frames@[i], *context),
{
    let mut rest = frames;
    let ghost orig = rest@;
    let n: usize = if rest.len() <= size as usize { rest.len() } else { size as usize };
    let mut out: Vec<CanMessage> = Vec::new();
    while out.len() < n
        invariant
            n <= orig.len(),
            out@.len() <= n,
            rest@ == orig.subrange(out@.len() as int, orig.len() as int),
            forall|i: int| 0 <= i < out@.len() ==> out@[i] == stamped(orig[i], *context),
        decreases n - out@.len(),
    {
        let f = rest.remove(0);
        let timestamp = if f.timestamp <= u64::MAX - context.timestamp {
            context.timestamp + f.timestamp
        } else {
            u64::MAX
        };
        let g = CanMessage { channel: context.channel, direct: CanDirect::Receive, timestamp, ..f };
        out.push(g);
        assert(rest@ =~= orig.subrange(out@.len() as int, orig.len() as int));
    }
    out
}

/// The count a backend reports for a batched transmit of `len` frames, capped
/// at `len`.
pub fn accepted_count(reported: u32, len: usize) -> (r: u32)
    ensures
        r as int == if (reported as int) <= (len as int) { reported as int } else { len as int },
{
    if (reported as usize) <= len {
        reported
    } else {
        len as u32
    }
}

/// `Ok` when `dev_type` has LIN channels, else the capability is not supported.
pub fn lin_support(dev_type: ZCanDeviceType) -> (r: Result<(), CanError>)
    ensures
        dev_type.spec_lin_support() ==> r is Ok,
        !dev_type.spec_lin_support() ==> r matches Err(CanError::NotSupportedError),
{
    if !dev_type.lin_support() {
        return Err(CanError::NotSupportedError);
    }
    Ok(())
}

/// `Ok` when `dev_type` offers cloud telemetry, else the capability is not supported.
pub fn cloud_support(dev_type: ZCanDeviceType) -> (r: Result<(), CanError>)
    ensures
        dev_type.spec_cloud_support() ==> r is Ok,
        !dev_type.spec_cloud_support() ==> r matches Err(CanError::NotSupportedError),
{
    if !dev_type.cloud_support() {
        return Err(CanError::NotSupportedError);
    }
    Ok(())
}

/// Re-initializing an initialized CAN channel hands its prior context to the
/// backend's reset before anything else is recorded, and afterwards no two live
/// contexts of the device share a channel number; on success the channel's one
/// live context is the new one.
pub proof fn lemma_reinit_resets_prior<B: ZDeviceApi + ZCanApi + ZLinApi>(
    before: ZDriver<B>,
    after: ZDriver<B>,
    channel: u8,
    cfg: ChannelConfig,
    r: Result<(), CanError>,
)
    requires
        before.wf(),
        after.wf(),
        ZDriver::<B>::inited_from(before, after, channel, cfg, r),
        before.can_slot(channel) is Some,
        channel < before.handler->Some_0.info.chn,
    ensures
        after.backend.resets().drop_last() == before.backend.resets(),
        after.backend.resets().last().0 == before.can_slot(channel)->Some_0,
        after.handler is Some,
        forall|a: int, b: int| 0 <= a < b < open_contexts(after.handler->Some_0.cans@).len()
            ==> (#[trigger] open_contexts(after.handler->Some_0.cans@)[a]).channel
                != (#[trigger] open_contexts(after.handler->Some_0.cans@)[b]).channel,
        r is Ok ==> (after.can_slot(channel) matches Some(c) && c.channel == channel),
{
    lemma_open_contexts_ordered(after.handler->Some_0.cans@);
}

/// Closing a device resets every initialized CAN and LIN channel, best effort,
/// as many resets as live channels, and leaves the device Closed whatever the
/// backend answered.
pub proof fn lemma_close_resets_all<B: ZDeviceApi + ZCanApi + ZLinApi>(
    before: ZDriver<B>,
    after: ZDriver<B>,
    channel: u8,
)
    requires
        before.wf(),
        ZDriver::<B>::closed_from(before, after),
    ensures
        after.handler is None,
        before.can_slot(channel) matches Some(c) ==> reset_contexts(after.backend.resets()).contains(c),
        before.lin_slot(channel) matches Some(c) ==> reset_contexts(after.backend.resets()).contains(c),
        before.handler matches Some(h) ==> after.backend.resets().len() == before.backend.resets().len()
            + open_contexts(h.cans@).len() + open_contexts(h.lins@).len(),
        before.handler matches Some(h) ==> after.backend.closes().last().0 == h.device,
{
    match before.handler {
        Some(h) => {
            let cans = open_contexts(h.cans@);
            let lins = open_contexts(h.lins@);
            let n = before.backend.resets().len() as int;
            let tail = after.backend.resets().subrange(n, after.backend.resets().len() as int);
            assert(after.backend.resets() =~= before.backend.resets() + tail);
            let all = reset_contexts(after.backend.resets());
            assert(all =~= reset_contexts(before.backend.resets()) + reset_contexts(tail));
            assert(reset_contexts(tail) == cans + lins);
            if h.cans@[channel as int] is Some {
                lemma_open_contexts_contains(h.cans@, channel as int);
                let j = choose|j: int| 0 <= j < cans.len() && cans[j] == h.cans@[channel as int]->Some_0;
                assert(all[n + j] == cans[j]);
            }
            if h.lins@[channel as int] is Some {
                lemma_open_contexts_contains(h.lins@, channel as int);
                let j = choose|j: int| 0 <= j < lins.len() && lins[j] == h.lins@[channel as int]->Some_0;
                assert(all[n + cans.len() + j] == lins[j]);
            }
            assert(reset_contexts(tail).len() == tail.len());
        },
        None => {},
    }
}

} // verus!
