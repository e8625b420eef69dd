use vstd::prelude::*;
use crate::api::{ZCanApi, ZCanChlCfg, ZCanChlError, ZCanChlStatus, ZCanFrameType, ZCloudApi, ZDeviceApi, ZLinApi, ZLinChlCfg};
use crate::context::{ZChannelContext, ZDeviceContext, ZDeviceInfo};
use crate::driver::{seq_res, DevCall, IoCall};
use crate::error::CanError;
use crate::frame::CanMessage;

verus! {

/// The backend of a device together with the record of every call handed to
/// it. The backend is reached only through these methods, each of which makes
/// one call and records it with its answer.
pub struct Backend<B> {
    api: B,
    /// Every channel context handed to a reset, in order, with the answer.
    resets: Ghost<Seq<(ZChannelContext, Result<(), CanError>)>>,
    /// Every device context handed to a close, in order, with the answer.
    closes: Ghost<Seq<(ZDeviceContext, Result<(), CanError>)>>,
    /// Every CAN channel initialization: the context handed, the configuration,
    /// the answer, and the context as the backend left it.
    inits: Ghost<Seq<(ZChannelContext, ZCanChlCfg, Result<(), CanError>, ZChannelContext)>>,
    /// Every other device or channel call, with its answer.
    dev: Ghost<Seq<DevCall>>,
    /// Every data-plane call, with its answer.
    io: Ghost<Seq<IoCall>>,
}

impl<B> Backend<B> {
    /// The backend value itself.
    pub closed spec fn api_view(&self) -> B {
        self.api
    }

    pub closed spec fn resets(&self) -> Seq<(ZChannelContext, Result<(), CanError>)> {
        self.resets@
    }

    pub closed spec fn closes(&self) -> Seq<(ZDeviceContext, Result<(), CanError>)> {
        self.closes@
    }

    pub closed spec fn inits(&self) -> Seq<(ZChannelContext, ZCanChlCfg, Result<(), CanError>, ZChannelContext)> {
        self.inits@
    }

    pub closed spec fn dev(&self) -> Seq<DevCall> {
        self.dev@
    }

    pub closed spec fn io(&self) -> Seq<IoCall> {
        self.io@
    }

    /// A backend with nothing recorded.
    pub fn new(api: B) -> (r: Self)
        ensures
            r.api_view() == api,
            r.resets().len() == 0,
            r.closes().len() == 0,
            r.inits().len() == 0,
            r.dev().len() == 0,
            r.io().len() == 0,
    {
        Backend {
            api,
            resets: Ghost(Seq::empty()),
            closes: Ghost(Seq::empty()),
            inits: Ghost(Seq::empty()),
            dev: Ghost(Seq::empty()),
            io: Ghost(Seq::empty()),
        }
    }
}

impl<B: ZDeviceApi + ZCanApi + ZLinApi> Backend<B> {
    /// Opens the device of `context`; the backend stores the handle in it.
    pub fn open(&mut self, context: &mut ZDeviceContext) -> (r: Result<(), CanError>)
        ensures
            final(self).api_view() == old(self).api_view(),
            final(self).resets() == old(self).resets(),
            final(self).closes() == old(self).closes(),
            final(self).inits() == old(self).inits(),
            final(self).io() == old(self).io(),
            final(self).dev() == old(self).dev().push(DevCall::Open { context: *old(context), result: r, handle: final(context).dev_hdl }),
    {
        let ghost handed = *context;
        let r = self.api.open(context);
        self.dev = Ghost(self.dev@.push(DevCall::Open { context: handed, result: r, handle: context.dev_hdl }));
        r
    }

    /// Initializes the CAN channel of `context` with `cfg`; the backend stores
    /// the channel handle in `context`.
    pub fn init_can_chl(&mut self, context: &mut ZChannelContext, cfg: &ZCanChlCfg) -> (r: Result<(), CanError>)
        ensures
            final(self).api_view() == old(self).api_view(),
            final(self).resets() == old(self).resets(),
            final(self).closes() == old(self).closes(),
            final(self).dev() == old(self).dev(),
            final(self).io() == old(self).io(),
            final(self).inits() == old(self).inits().push((*old(context), *cfg, r, *final(context))),
    {
        let ghost handed = *context;
        let r = self.api.init_can_chl(context, cfg);
        self.inits = Ghost(self.inits@.push((handed, *cfg, r, *context)));
        r
    }

    /// Initializes the LIN channel of `context` with `cfg`.
    pub fn init_lin_chl(&mut self, context: &mut ZChannelContext, cfg: &ZLinChlCfg) -> (r: Result<(), CanError>)
        ensures
            final(self).api_view() == old(self).api_view(),
            final(self).resets() == old(self).resets(),
            final(self).closes() == old(self).closes(),
            final(self).inits() == old(self).inits(),
            final(self).io() == old(self).io(),
            final(self).dev() == old(self).dev().push(DevCall::LinInit { context: *old(context), cfg: *cfg, result: r, after: *final(context) }),
    {
        let ghost handed = *context;
        let r = self.api.init_lin_chl(context, cfg);
        self.dev = Ghost(self.dev@.push(DevCall::LinInit { context: handed, cfg: *cfg, result: r, after: *context }));
        r
    }

    /// Reads the device information.
    pub fn read_device_info(&mut self, context: &ZDeviceContext) -> (r: Result<ZDeviceInfo, CanError>)
        ensures
            final(self).api_view() == old(self).api_view(),
            final(self).resets() == old(self).resets(),
            final(self).closes() == old(self).closes(),
            final(self).inits() == old(self).inits(),
            final(self).io() == old(self).io(),
            final(self).dev() == old(self).dev().push(DevCall::Info { context: *context, result: r }),
    {
        let r = self.api.read_device_info(context);
        self.dev = Ghost(self.dev@.push(DevCall::Info { context: *context, result: r }));
        r
    }

    /// Closes the device.
    pub fn close(&mut self, context: &ZDeviceContext) -> (r: Result<(), CanError>)
        ensures
            final(self).api_view() == old(self).api_view(),
            final(self).resets() == old(self).resets(),
            final(self).inits() == old(self).inits(),
            final(self).dev() == old(self).dev(),
            final(self).io() == old(self).io(),
            final(self).closes() == old(self).closes().push((*context, r)),
    {
        let r = self.api.close(context);
        self.closes = Ghost(self.closes@.push((*context, r)));
        r
    }

    /// Asks whether the device is online.
    pub fn is_online(&mut self, context: &ZDeviceContext) -> (r: Result<bool, CanError>)
        ensures
            final(self).api_view() == old(self).api_view(),
            final(self).resets() == old(self).resets(),
            final(self).closes() == old(self).closes(),
            final(self).inits() == old(self).inits(),
            final(self).io() == old(self).io(),
            final(self).dev() == old(self).dev().push(DevCall::Online { context: *context, result: r }),
    {
        let r = self.api.is_online(context);
        self.dev = Ghost(self.dev@.push(DevCall::Online { context: *context, result: r }));
        r
    }

    /// Resets a CAN channel.
    pub fn reset_can_chl(&mut self, context: &ZChannelContext) -> (r: Result<(), CanError>)
        ensures
            final(self).api_view() == old(self).api_view(),
            final(self).closes() == old(self).closes(),
            final(self).inits() == old(self).inits(),
            final(self).dev() == old(self).dev(),
            final(self).io() == old(self).io(),
            final(self).resets() == old(self).resets().push((*context, r)),
    {
        let r = self.api.reset_can_chl(context);
        self.resets = Ghost(self.resets@.push((*context, r)));
        r
    }

    /// Resets a LIN channel.
    pub fn reset_lin_chl(&mut self, context: &ZChannelContext) -> (r: Result<(), CanError>)
        ensures
            final(self).api_view() == old(self).api_view(),
            final(self).closes() == old(self).closes(),
            final(self).inits() == old(self).inits(),
            final(self).dev() == old(self).dev(),
            final(self).io() == old(self).io(),
            final(self).resets() == old(self).resets().push((*context, r)),
    {
        let r = self.api.reset_lin_chl(context);
        self.resets = Ghost(self.resets@.push((*context, r)));
        r
    }

    /// Reads a channel's status registers.
    pub fn read_can_chl_status(&mut self, context: &ZChannelContext) -> (r: Result<ZCanChlStatus, CanError>)
        ensures
            final(self).api_view() == old(self).api_view(),
            final(self).resets() == old(self).resets(),
            final(self).closes() == old(self).closes(),
            final(self).inits() == old(self).inits(),
            final(self).io() == old(self).io(),
            final(self).dev() == old(self).dev().push(DevCall::Status { context: *context, result: r }),
    {
        let r = self.api.read_can_chl_status(context);
        self.dev = Ghost(self.dev@.push(DevCall::Status { context: *context, result: r }));
        r
    }

    /// Reads a channel's error information.
    pub fn read_can_chl_error(&mut self, context: &ZChannelContext) -> (r: Result<ZCanChlError, CanError>)
        ensures
            final(self).api_view() == old(self).api_view(),
            final(self).resets() == old(self).resets(),
            final(self).closes() == old(self).closes(),
            final(self).inits() == old(self).inits(),
            final(self).io() == old(self).io(),
            final(self).dev() == old(self).dev().push(DevCall::ErrorInfo { context: *context, result: r }),
    {
        let r = self.api.read_can_chl_error(context);
        self.dev = Ghost(self.dev@.push(DevCall::ErrorInfo { context: *context, result: r }));
        r
    }

    /// Clears a channel's receive buffer.
    pub fn clear_can_buffer(&mut self, context: &ZChannelContext) -> (r: Result<(), CanError>)
        ensures
            final(self).api_view() == old(self).api_view(),
            final(self).resets() == old(self).resets(),
            final(self).closes() == old(self).closes(),
            final(self).inits() == old(self).inits(),
            final(self).io() == old(self).io(),
            final(self).dev() == old(self).dev().push(DevCall::Clear { context: *context, result: r }),
    {
        let r = self.api.clear_can_buffer(context);
        self.dev = Ghost(self.dev@.push(DevCall::Clear { context: *context, result: r }));
        r
    }

    /// Counts the frames pending in a queue.
    pub fn get_can_num(&mut self, context: &ZChannelContext, can_type: ZCanFrameType) -> (r: Result<u32, CanError>)
        ensures
            final(self).api_view() == old(self).api_view(),
            final(self).resets() == old(self).resets(),
            final(self).closes() == old(self).closes(),
            final(self).inits() == old(self).inits(),
            final(self).dev() == old(self).dev(),
            final(self).io() == old(self).io().push(IoCall::Count { channel: context.channel, queue: can_type, result: r }),
    {
        let r = self.api.get_can_num(context, can_type);
        self.io = Ghost(self.io@.push(IoCall::Count { channel: context.channel, queue: can_type, result: r }));
        r
    }

    /// Receives up to `size` classic frames.
    pub fn receive_can(&mut self, context: &ZChannelContext, size: u32, timeout: u32) -> (r: Result<Vec<CanMessage>, CanError>)
        ensures
            final(self).api_view() == old(self).api_view(),
            final(self).resets() == old(self).resets(),
            final(self).closes() == old(self).closes(),
            final(self).inits() == old(self).inits(),
            final(self).dev() == old(self).dev(),
            final(self).io() == old(self).io().push(IoCall::Receive { channel: context.channel, fd: false, size, timeout, result: seq_res(r) }),
    {
        let r = self.api.receive_can(context, size, timeout);
        self.io = Ghost(self.io@.push(IoCall::Receive { channel: context.channel, fd: false, size, timeout, result: seq_res(r) }));
        r
    }

    /// Receives up to `size` CAN-FD frames.
    pub fn receive_canfd(&mut self, context: &ZChannelContext, size: u32, timeout: u32) -> (r: Result<Vec<CanMessage>, CanError>)
        ensures
            final(self).api_view() == old(self).api_view(),
            final(self).resets() == old(self).resets(),
            final(self).closes() == old(self).closes(),
            final(self).inits() == old(self).inits(),
            final(self).dev() == old(self).dev(),
            final(self).io() == old(self).io().push(IoCall::Receive { channel: context.channel, fd: true, size, timeout, result: seq_res(r) }),
    {
        let r = self.api.receive_canfd(context, size, timeout);
        self.io = Ghost(self.io@.push(IoCall::Receive { channel: context.channel, fd: true, size, timeout, result: seq_res(r) }));
        r
    }

    /// Transmits classic frames.
    pub fn transmit_can(&mut self, context: &ZChannelContext, frames: Vec<CanMessage>) -> (r: Result<u32, CanError>)
        ensures
            final(self).api_view() == old(self).api_view(),
            final(self).resets() == old(self).resets(),
            final(self).closes() == old(self).closes(),
            final(self).inits() == old(self).inits(),
            final(self).dev() == old(self).dev(),
            final(self).io() == old(self).io().push(IoCall::Transmit { channel: context.channel, fd: false, frames: frames@, result: r }),
    {
        let ghost sent = frames@;
        let r = self.api.transmit_can(context, frames);
        self.io = Ghost(self.io@.push(IoCall::Transmit { channel: context.channel, fd: false, frames: sent, result: r }));
        r
    }

    /// Transmits CAN-FD frames.
    pub fn transmit_canfd(&mut self, context: &ZChannelContext, frames: Vec<CanMessage>) -> (r: Result<u32, CanError>)
        ensures
            final(self).api_view() == old(self).api_view(),
            final(self).resets() == old(self).resets(),
            final(self).closes() == old(self).closes(),
            final(self).inits() == old(self).inits(),
            final(self).dev() == old(self).dev(),
            final(self).io() == old(self).io().push(IoCall::Transmit { channel: context.channel, fd: true, frames: frames@, result: r }),
    {
        let ghost sent = frames@;
        let r = self.api.transmit_canfd(context, frames);
        self.io = Ghost(self.io@.push(IoCall::Transmit { channel: context.channel, fd: true, frames: sent, result: r }));
        r
    }
}

impl<B: ZDeviceApi + ZCanApi + ZLinApi> Backend<B> {
    pub fn clear_lin_buffer(&mut self, context: &ZChannelContext) -> (r: Result<(), CanError>)
        ensures
            final(self).api_view() == old(self).api_view(),
            final(self).resets() == old(self).resets(),
            final(self).closes() == old(self).closes(),
            final(self).inits() == old(self).inits(),
            final(self).io() == old(self).io(),
            final(self).dev() == old(self).dev().push(DevCall::LinClear { context: *context, result: r }),
    {
        let r = self.api.clear_lin_buffer(context);
        self.dev = Ghost(self.dev@.push(DevCall::LinClear { context: *context, result: r }));
        r
    }
}

impl<B: ZDeviceApi + ZCanApi + ZLinApi> Backend<B> {
    pub fn get_lin_num(&mut self, context: &ZChannelContext) -> (r: Result<u32, CanError>)
        ensures
            final(self).api_view() == old(self).api_view(),
            final(self).resets() == old(self).resets(),
            final(self).closes() == old(self).closes(),
            final(self).inits() == old(self).inits(),
            final(self).io() == old(self).io(),
            final(self).dev() == old(self).dev().push(DevCall::LinCount { context: *context, result: r }),
    {
        let r = self.api.get_lin_num(context);
        self.dev = Ghost(self.dev@.push(DevCall::LinCount { context: *context, result: r }));
        r
    }
}

impl<B: ZCloudApi> Backend<B> {
    pub fn connect_server(&self, username: &str, password: &str) -> Result<(), CanError> {
        self.api.connect_server(username, password)
    }

    pub fn is_connected_server(&self) -> Result<bool, CanError> {
        self.api.is_connected_server()
    }

    pub fn disconnect_server(&self) -> Result<(), CanError> {
        self.api.disconnect_server()
    }
}

} // verus!
