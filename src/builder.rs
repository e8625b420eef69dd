use vstd::prelude::*;
use crate::config::{fetched, OtherType, OtherValue, Others};
use crate::error::CanError;

verus! {

/// Channel-level configuration: nominal bit rate, optional data bit rate and
/// termination flag, and backend-specific properties.
#[derive(Debug, Clone)]
pub struct ChannelConfig {
    pub bitrate: u32,
    pub dbitrate: Option<u32>,
    pub resistance: Option<bool>,
    pub others: Others,
}

impl ChannelConfig {
    /// The property bag stores each name once.
    pub open spec fn wf(&self) -> bool {
        self.others.wf()
    }

    pub fn new(bitrate: u32) -> (r: ChannelConfig)
        ensures
            r.wf(),
            r.bitrate == bitrate,
            r.dbitrate is None,
            r.resistance is None,
            r.others@ == Map::<Seq<char>, OtherValue>::empty(),
    {
        ChannelConfig { bitrate, dbitrate: None, resistance: None, others: Others::new() }
    }

    pub fn set_data_bitrate(&mut self, bitrate: u32)
        ensures
            *final(self) == (ChannelConfig { dbitrate: Some(bitrate), ..*old(self) }),
    {
        self.dbitrate = Some(bitrate);
    }

    pub fn set_resistance(&mut self, resistance: bool)
        ensures
            *final(self) == (ChannelConfig { resistance: Some(resistance), ..*old(self) }),
    {
        self.resistance = Some(resistance);
    }

    /// Stores a backend-specific property under `name`.
    pub fn add_other<T: OtherType>(&mut self, name: &str, other: T)
        requires
            old(self).wf(),
        ensures
            final(self).wf(),
            final(self).others@ == old(self).others@.insert(name@, T::spec_wrap(other)),
            final(self).bitrate == old(self).bitrate,
            final(self).dbitrate == old(self).dbitrate,
            final(self).resistance == old(self).resistance,
    {
        self.others.insert(name, other);
    }

    /// The property stored under `name`: `None` when unset, an error when it was
    /// stored under another type than `T`.
    pub fn get_other<T: OtherType>(&self, name: &str) -> (r: Result<Option<T>, CanError>)
        requires
            self.wf(),
        ensures
            fetched::<T>(self.others@, name@, r),
    {
        get_other(&self.others, name)
    }

    pub fn bitrate(&self) -> (r: u32)
        ensures
            r == self.bitrate,
    {
        self.bitrate
    }

    pub fn dbitrate(&self) -> (r: Option<u32>)
        ensures
            r == self.dbitrate,
    {
        self.dbitrate
    }

    pub fn resistance(&self) -> (r: Option<bool>)
        ensures
            r == self.resistance,
    {
        self.resistance
    }
}

/// Fetches the property `name` from a bag as a `T`.
pub fn get_other<T: OtherType>(others: &Others, name: &str) -> (r: Result<Option<T>, CanError>)
    requires
        others.wf(),
    ensures
        fetched::<T>(others@, name@, r),
{
    others.get(name)
}

/// Whether no channel number occurs twice in `s`.
pub open spec fn unique_channels(s: Seq<(u8, ChannelConfig)>) -> bool {
    forall|i: int, j: int| 0 <= i < j < s.len() ==> s[i].0 != s[j].0
}

/// Device-level configuration: one `ChannelConfig` per channel number, and
/// device-level properties (library path, device type, device index, derive
/// descriptor). It is consumed once, by building a device.
#[derive(Debug, Clone)]
pub struct DeviceBuilder {
    pub configs: Vec<(u8, ChannelConfig)>,
    pub others: Others,
}

impl DeviceBuilder {
    pub open spec fn wf(&self) -> bool {
        &&& unique_channels(self.configs@)
        &&& self.others.wf()
        &&& forall|j: int| 0 <= j < self.configs@.len() ==> (#[trigger] self.configs@[j]).1.wf()
    }

    pub fn new() -> (r: DeviceBuilder)
        ensures
            r.wf(),
            r.configs@.len() == 0,
            r.others@ == Map::<Seq<char>, OtherValue>::empty(),
    {
        DeviceBuilder { configs: Vec::new(), others: Others::new() }
    }

    /// Sets the configuration of `channel`, replacing an earlier one.
    pub fn add_config(&mut self, channel: u8, cfg: ChannelConfig)
        requires
            old(self).wf(),
            cfg.wf(),
        ensures
            final(self).wf(),
            final(self).others@ == old(self).others@,
            forall|i: int| 0 <= i < old(self).configs@.len() && old(self).configs@[i].0 == channel
                ==> final(self).configs@ == old(self).configs@.update(i, (channel, cfg)),
            (forall|i: int| 0 <= i < old(self).configs@.len() ==> old(self).configs@[i].0 != channel)
                ==> final(self).configs@ == old(self).configs@.push((channel, cfg)),
    {
        let mut i: usize = 0;
        while i < self.configs.len()
            invariant
                i <= self.configs@.len(),
                self.configs@ == old(self).configs@,
                self.others == old(self).others,
                unique_channels(old(self).configs@),
                old(self).wf(),
                cfg.wf(),
                forall|j: int| 0 <= j < i ==> self.configs@[j].0 != channel,
            decreases self.configs@.len() - i,
        {
            if self.configs[i].0 == channel {
                self.configs.set(i, (channel, cfg));
                assert forall|j: int| 0 <= j < self.configs@.len() implies (#[trigger] self.configs@[j]).1.wf() by {
                    if j != i {
                        assert(old(self).configs@[j].1.wf());
                    }
                }
                assert forall|a: int, b: int| 0 <= a < b < final(self).configs@.len()
                    implies final(self).configs@[a].0 != final(self).configs@[b].0 by {
                    assert(old(self).configs@[a].0 != old(self).configs@[b].0);
                }
                assert forall|k: int| 0 <= k < old(self).configs@.len() && old(self).configs@[k].0 == channel
                    implies k == i by {
                    if k != i {
                        assert(old(self).configs@[k].0 != old(self).configs@[i as int].0);
                    }
                }
                return;
            }
            i = i + 1;
        }
        self.configs.push((channel, cfg));
    }

    /// Stores a device-level property under `name`.
    pub fn add_other<T: OtherType>(&mut self, name: &str, cfg: T)
        requires
            old(self).wf(),
        ensures
            final(self).wf(),
            final(self).others@ == old(self).others@.insert(name@, T::spec_wrap(cfg)),
            final(self).configs@ == old(self).configs@,
    {
        self.others.insert(name, cfg);
    }

    /// The device-level property stored under `name`.
    pub fn get_other<T: OtherType>(&self, name: &str) -> (r: Result<Option<T>, CanError>)
        requires
            self.wf(),
        ensures
            fetched::<T>(self.others@, name@, r),
    {
        get_other(&self.others, name)
    }

    pub fn channel_configs(&self) -> (r: &Vec<(u8, ChannelConfig)>)
        ensures
            r@ == self.configs@,
    {
        &self.configs
    }
}

} // verus!
