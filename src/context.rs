use vstd::prelude::*;
use crate::device::{DeriveInfo, ZCanDeviceType};
use crate::error::CanError;
use vstd::string::StringExecFns;

verus! {

/// Number of channel slots a device can have: one per channel number.
pub const CHANNEL_SLOTS: usize = 256;

/// What the core knows of a device: its type and index, the backend's opaque
/// handle once opened, and whether it is a derived (virtual) device.
#[derive(Debug, Clone, Copy, PartialEq, Eq, Structural)]
pub struct ZDeviceContext {
    pub dev_type: ZCanDeviceType,
    pub dev_idx: u32,
    pub dev_hdl: Option<u32>,
    pub is_derive: bool,
}

impl ZDeviceContext {
    pub fn new(dev_type: ZCanDeviceType, dev_idx: u32, is_derive: bool) -> (r: Self)
        ensures
            r == (ZDeviceContext { dev_type, dev_idx, dev_hdl: None, is_derive }),
    {
        ZDeviceContext { dev_type, dev_idx, dev_hdl: None, is_derive }
    }

    /// The device handle; an error before the backend assigned one.
    pub fn device_handler(&self) -> (r: Result<u32, CanError>)
        ensures
            match self.dev_hdl {
                Some(h) => r == Ok::<u32, CanError>(h),
                None => r matches Err(CanError::OtherError(m)) && m@ == "device is not initialized!"@,
            },
    {
        match self.dev_hdl {
            Some(h) => Ok(h),
            None => Err(CanError::other_error("device is not initialized!")),
        }
    }
}

/// What the core knows of one channel: its device, its number, the backend's
/// opaque handle, and the base that device-relative timestamps count from.
#[derive(Debug, Clone, Copy, PartialEq, Eq, Structural)]
pub struct ZChannelContext {
    pub device: ZDeviceContext,
    pub channel: u8,
    pub chl_hdl: Option<u32>,
    pub timestamp: u64,
}

impl ZChannelContext {
    pub fn new(device: ZDeviceContext, channel: u8) -> (r: Self)
        ensures
            r == (ZChannelContext { device, channel, chl_hdl: None, timestamp: 0 }),
    {
        ZChannelContext { device, channel, chl_hdl: None, timestamp: 0 }
    }

    pub fn device_handler(&self) -> (r: Result<u32, CanError>)
        ensures
            match self.device.dev_hdl {
                Some(h) => r == Ok::<u32, CanError>(h),
                None => r matches Err(CanError::OtherError(m)) && m@ == "device is not initialized!"@,
            },
    {
        self.device.device_handler()
    }

    /// The channel handle; an error before the backend assigned one.
    pub fn channel_handler(&self) -> (r: Result<u32, CanError>)
        ensures
            match self.chl_hdl {
                Some(h) => r == Ok::<u32, CanError>(h),
                None => r matches Err(CanError::OtherError(m)) && m@ == "channel is not initialized!"@,
            },
    {
        match self.chl_hdl {
            Some(h) => Ok(h),
            None => Err(CanError::other_error("channel is not initialized!")),
        }
    }
}

/// The decimal text of a number below 16.
pub open spec fn small_decimal(n: u8) -> Seq<char> {
    match n {
        0 => seq!['0'],
        1 => seq!['1'],
        2 => seq!['2'],
        3 => seq!['3'],
        4 => seq!['4'],
        5 => seq!['5'],
        6 => seq!['6'],
        7 => seq!['7'],
        8 => seq!['8'],
        9 => seq!['9'],
        10 => seq!['1', '0'],
        11 => seq!['1', '1'],
        12 => seq!['1', '2'],
        13 => seq!['1', '3'],
        14 => seq!['1', '4'],
        15 => seq!['1', '5'],
        _ => seq!['?'],
    }
}

/// The decimal text of `n`.
pub fn small_decimal_str(n: u8) -> (r: &'static str)
    requires
        n < 16,
    ensures
        r@ == small_decimal(n),
{
    match n {
        0 => {
            proof {
                reveal_strlit("0");
            }
            "0"
        },
        1 => {
            proof {
                reveal_strlit("1");
            }
            "1"
        },
        2 => {
            proof {
                reveal_strlit("2");
            }
            "2"
        },
        3 => {
            proof {
                reveal_strlit("3");
            }
            "3"
        },
        4 => {
            proof {
                reveal_strlit("4");
            }
            "4"
        },
        5 => {
            proof {
                reveal_strlit("5");
            }
            "5"
        },
        6 => {
            proof {
                reveal_strlit("6");
            }
            "6"
        },
        7 => {
            proof {
                reveal_strlit("7");
            }
            "7"
        },
        8 => {
            proof {
                reveal_strlit("8");
            }
            "8"
        },
        9 => {
            proof {
                reveal_strlit("9");
            }
            "9"
        },
        10 => {
            proof {
                reveal_strlit("10");
            }
            "10"
        },
        11 => {
            proof {
                reveal_strlit("11");
            }
            "11"
        },
        12 => {
            proof {
                reveal_strlit("12");
            }
            "12"
        },
        13 => {
            proof {
                reveal_strlit("13");
            }
            "13"
        },
        14 => {
            proof {
                reveal_strlit("14");
            }
            "14"
        },
        15 => {
            proof {
                reveal_strlit("15");
            }
            "15"
        },
        _ => {
            proof {
                reveal_strlit("?");
            }
            "?"
        },
    }
}

/// The text of a BCD-style version word: `V` and the high byte's two nibbles
/// (the first left out when zero), a dot, and the low byte's two nibbles.
pub open spec fn version_text(ver: u16) -> Seq<char> {
    let major = (ver >> 8u16) as u8;
    let minor = (ver & 0xffu16) as u8;
    let head = if major >> 4u8 > 0 {
        small_decimal(major >> 4u8) + small_decimal(major & 0xfu8)
    } else {
        small_decimal(major & 0xfu8)
    };
    seq!['V'] + head + seq!['.'] + small_decimal(minor >> 4u8) + small_decimal(minor & 0xfu8)
}

/// Whether `needle` occurs in `hay` at position `i`.
pub open spec fn occurs_at(hay: Seq<char>, needle: Seq<char>, i: int) -> bool {
    0 <= i && i + needle.len() <= hay.len() && hay.subrange(i, i + needle.len()) == needle
}

/// Whether `needle` occurs in `hay`.
pub open spec fn has_text(hay: Seq<char>, needle: Seq<char>) -> bool {
    exists|i: int| occurs_at(hay, needle, i)
}

/// Whether `needle` occurs in `hay`.
pub fn contains_text(hay: &str, needle: &str) -> (r: bool)
    ensures
        r == has_text(hay@, needle@),
{
    let n = hay.unicode_len();
    let m = needle.unicode_len();
    if m > n {
        assert forall|i: int| !occurs_at(hay@, needle@, i) by {}
        return false;
    }
    let mut i: usize = 0;
    while i <= n - m
        invariant
            n == hay@.len(),
            m == needle@.len(),
            m <= n,
            i <= n - m + 1,
            forall|k: int| 0 <= k < i ==> !occurs_at(hay@, needle@, k),
        decreases n - i,
    {
        let mut j: usize = 0;
        let mut same = true;
        while j < m && same
            invariant
                n == hay@.len(),
                m == needle@.len(),
                i + m <= n,
                j <= m,
                same == (forall|k: int| 0 <= k < j ==> hay@[i + k] == needle@[k]),
            decreases m - j,
        {
            if hay.get_char(i + j) != needle.get_char(j) {
                same = false;
            }
            j = j + 1;
        }
        if same {
            assert(hay@.subrange(i as int, i + m) =~= needle@);
            assert(occurs_at(hay@, needle@, i as int));
            return true;
        }
        assert(!occurs_at(hay@, needle@, i as int)) by {
            if occurs_at(hay@, needle@, i as int) {
                let k = choose|k: int| 0 <= k < j && hay@[i + k] != needle@[k];
                assert(hay@.subrange(i as int, i + m)[k] == hay@[i + k]);
            }
        }
        i = i + 1;
    }
    assert forall|k: int| !occurs_at(hay@, needle@, k) by {
        if 0 <= k && k < i {
        } else if k >= i {
            assert(k + m > n);
        }
    }
    false
}

/// Hardware information read from a device, or made up for a derived device.
#[derive(Debug, Clone)]
pub struct ZDeviceInfo {
    pub hwv: u16,
    pub fwv: u16,
    pub drv: u16,
    pub api: u16,
    pub irq: u16,
    /// Number of CAN channels.
    pub chn: u8,
    /// Serial number.
    pub sn: String,
    /// Card identification; it names CAN-FD hardware as such.
    pub id: String,
}

/// The identification text of a derived device.
pub open spec fn derive_id(canfd: bool) -> Seq<char> {
    if canfd {
        "Derive USBCANFD device"@
    } else {
        "Derive USBCAN device"@
    }
}

impl ZDeviceInfo {
    /// Whether `info` is what stands for the derived device `derive`.
    pub open spec fn derived_from(info: ZDeviceInfo, derive: DeriveInfo) -> bool {
        &&& info.chn == derive.channels
        &&& info.id@ == derive_id(derive.canfd)
        &&& info.sn@ == Seq::<char>::empty()
        &&& info.hwv == 0 && info.fwv == 0 && info.drv == 0 && info.api == 0 && info.irq == 0
    }

    /// The information that stands for a derived device.
    pub fn from_derive(derive: &DeriveInfo) -> (r: Self)
        ensures
            Self::derived_from(r, *derive),
    {
        let id = if derive.canfd {
            String::from_str("Derive USBCANFD device")
        } else {
            String::from_str("Derive USBCAN device")
        };
        ZDeviceInfo { hwv: 0, fwv: 0, drv: 0, api: 0, irq: 0, chn: derive.channels, sn: String::new(), id }
    }

    /// The text of a version word.
    pub fn version(ver: u16) -> (r: String)
        ensures
            r@ == version_text(ver),
    {
        let major = (ver >> 8u16) as u8;
        let minor = (ver & 0xffu16) as u8;
        assert(major >> 4u8 < 16u8 && major & 0xfu8 < 16u8) by (bit_vector);
        assert(minor >> 4u8 < 16u8 && minor & 0xfu8 < 16u8) by (bit_vector);
        let mut r = String::from_str("V");
        proof {
            reveal_strlit("V");
            reveal_strlit(".");
        }
        if major >> 4u8 > 0 {
            r.append(small_decimal_str(major >> 4u8));
        }
        r.append(small_decimal_str(major & 0xfu8));
        r.append(".");
        r.append(small_decimal_str(minor >> 4u8));
        r.append(small_decimal_str(minor & 0xfu8));
        assert(r@ =~= version_text(ver));
        r
    }

    pub fn hardware_version(&self) -> (r: String)
        ensures
            r@ == version_text(self.hwv),
    {
        Self::version(self.hwv)
    }

    pub fn firmware_version(&self) -> (r: String)
        ensures
            r@ == version_text(self.fwv),
    {
        Self::version(self.fwv)
    }

    pub fn driver_version(&self) -> (r: String)
        ensures
            r@ == version_text(self.drv),
    {
        Self::version(self.drv)
    }

    pub fn api_version(&self) -> (r: String)
        ensures
            r@ == version_text(self.api),
    {
        Self::version(self.api)
    }

    pub fn can_channels(&self) -> (r: u8)
        ensures
            r == self.chn,
    {
        self.chn
    }

    /// Whether the identification names CAN-FD hardware.
    pub fn canfd(&self) -> (r: bool)
        ensures
            r == has_text(self.id@, "CANFD"@),
    {
        contains_text(self.id.as_str(), "CANFD")
    }

    pub fn sn(&self) -> (r: String)
        ensures
            r@ == self.sn@,
    {
        self.sn.clone()
    }

    pub fn id(&self) -> (r: String)
        ensures
            r@ == self.id@,
    {
        self.id.clone()
    }

    pub fn irq(&self) -> (r: u16)
        ensures
            r == self.irq,
    {
        self.irq
    }
}

/// Whether each occupied slot of `slots` holds the context of its own channel number.
pub open spec fn slots_wf(slots: Seq<Option<ZChannelContext>>) -> bool {
    &&& slots.len() == CHANNEL_SLOTS
    &&& forall|i: int| 0 <= i < slots.len() && (#[trigger] slots[i]) is Some ==> slots[i]->Some_0.channel == i
}

/// The contexts held by `slots`, in channel order.
pub open spec fn open_contexts(slots: Seq<Option<ZChannelContext>>) -> Seq<ZChannelContext>
    decreases slots.len(),
{
    if slots.len() == 0 {
        Seq::empty()
    } else {
        let rest = open_contexts(slots.drop_last());
        match slots.last() {
            Some(c) => rest.push(c),
            None => rest,
        }
    }
}

/// Whether each occupied slot of `s` holds the context of its own position.
pub open spec fn positional(s: Seq<Option<ZChannelContext>>) -> bool {
    forall|i: int| 0 <= i < s.len() && (#[trigger] s[i]) is Some ==> s[i]->Some_0.channel == i
}

/// The live contexts of a registry come in strictly increasing channel order,
/// so no two of them share a channel number.
pub proof fn lemma_open_contexts_ordered(s: Seq<Option<ZChannelContext>>)
    requires
        positional(s),
    ensures
        forall|j: int| 0 <= j < open_contexts(s).len() ==> (#[trigger] open_contexts(s)[j]).channel < s.len(),
        forall|a: int, b: int| 0 <= a < b < open_contexts(s).len()
            ==> (#[trigger] open_contexts(s)[a]).channel < (#[trigger] open_contexts(s)[b]).channel,
    decreases s.len(),
{
    if s.len() > 0 {
        let p = s.drop_last();
        assert(positional(p)) by {
            assert forall|i: int| 0 <= i < p.len() && (#[trigger] p[i]) is Some implies p[i]->Some_0.channel == i by {
                assert(s[i] == p[i]);
            }
        }
        lemma_open_contexts_ordered(p);
        if s.last() is Some {
            assert(s[s.len() - 1] is Some);
        }
    }
}

/// Every live context of a registry is among its open contexts.
pub proof fn lemma_open_contexts_contains(s: Seq<Option<ZChannelContext>>, i: int)
    requires
        0 <= i < s.len(),
        s[i] is Some,
    ensures
        open_contexts(s).contains(s[i]->Some_0),
    decreases s.len(),
{
    let p = s.drop_last();
    if i == s.len() - 1 {
        let oc = open_contexts(s);
        assert(oc[oc.len() - 1] == s[i]->Some_0);
    } else {
        assert(p[i] == s[i]);
        lemma_open_contexts_contains(p, i);
        let j = choose|j: int| 0 <= j < open_contexts(p).len() && open_contexts(p)[j] == s[i]->Some_0;
        let oc = open_contexts(s);
        match s.last() {
            Some(c) => { assert(oc[j] == open_contexts(p)[j]); },
            None => {},
        }
    }
}

/// An opened device: its context, its information, and the registry of its
/// initialized CAN and LIN channels, one slot per channel number.
#[derive(Debug, Clone)]
pub struct Handler {
    pub device: ZDeviceContext,
    pub info: ZDeviceInfo,
    pub cans: Vec<Option<ZChannelContext>>,
    pub lins: Vec<Option<ZChannelContext>>,
}

impl Handler {
    pub open spec fn wf(&self) -> bool {
        slots_wf(self.cans@) && slots_wf(self.lins@)
    }

    /// A handler with no initialized channel.
    pub fn new(device: ZDeviceContext, info: ZDeviceInfo) -> (r: Self)
        ensures
            r.wf(),
            r.device == device,
            r.info == info,
            forall|i: int| 0 <= i < CHANNEL_SLOTS ==> r.cans@[i] is None && r.lins@[i] is None,
    {
        let mut cans: Vec<Option<ZChannelContext>> = Vec::new();
        let mut lins: Vec<Option<ZChannelContext>> = Vec::new();
        let mut i: usize = 0;
        while i < CHANNEL_SLOTS
            invariant
                i <= CHANNEL_SLOTS,
                cans@.len() == i,
                lins@.len() == i,
                forall|j: int| 0 <= j < i ==> cans@[j] is None && lins@[j] is None,
            decreases CHANNEL_SLOTS - i,
        {
            cans.push(None);
            lins.push(None);
            i = i + 1;
        }
        Handler { device, info, cans, lins }
    }

    pub fn device_context(&self) -> (r: &ZDeviceContext)
        ensures
            *r == self.device,
    {
        &self.device
    }

    pub fn device_info(&self) -> (r: &ZDeviceInfo)
        ensures
            *r == self.info,
    {
        &self.info
    }

    pub fn can_channels(&self) -> (r: &Vec<Option<ZChannelContext>>)
        ensures
            r@ == self.cans@,
    {
        &self.cans
    }

    pub fn lin_channels(&self) -> (r: &Vec<Option<ZChannelContext>>)
        ensures
            r@ == self.lins@,
    {
        &self.lins
    }

    pub fn find_can(&self, channel: u8) -> (r: Option<ZChannelContext>)
        requires
            self.wf(),
        ensures
            r == self.cans@[channel as int],
    {
        self.cans[channel as usize]
    }

    pub fn find_lin(&self, channel: u8) -> (r: Option<ZChannelContext>)
        requires
            self.wf(),
        ensures
            r == self.lins@[channel as int],
    {
        self.lins[channel as usize]
    }

    /// Records `context` as the live context of its channel, replacing any other.
    pub fn add_can(&mut self, context: ZChannelContext)
        requires
            old(self).wf(),
        ensures
            final(self).wf(),
            final(self).cans@ == old(self).cans@.update(context.channel as int, Some(context)),
            final(self).lins@ == old(self).lins@,
            final(self).device == old(self).device,
            final(self).info == old(self).info,
    {
        self.cans.set(context.channel as usize, Some(context));
    }

    pub fn remove_can(&mut self, channel: u8)
        requires
            old(self).wf(),
        ensures
            final(self).wf(),
            final(self).cans@ == old(self).cans@.update(channel as int, None),
            final(self).lins@ == old(self).lins@,
            final(self).device == old(self).device,
            final(self).info == old(self).info,
    {
        self.cans.set(channel as usize, None);
    }

    pub fn add_lin(&mut self, context: ZChannelContext)
        requires
            old(self).wf(),
        ensures
            final(self).wf(),
            final(self).lins@ == old(self).lins@.update(context.channel as int, Some(context)),
            final(self).cans@ == old(self).cans@,
            final(self).device == old(self).device,
            final(self).info == old(self).info,
    {
        self.lins.set(context.channel as usize, Some(context));
    }

    pub fn remove_lin(&mut self, channel: u8)
        requires
            old(self).wf(),
        ensures
            final(self).wf(),
            final(self).lins@ == old(self).lins@.update(channel as int, None),
            final(self).cans@ == old(self).cans@,
            final(self).device == old(self).device,
            final(self).info == old(self).info,
    {
        self.lins.set(channel as usize, None);
    }
}

} // verus!
