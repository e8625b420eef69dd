use vstd::prelude::*;
use crate::error::CanError;
use vstd::string::StringExecFns;

verus! {

/// One row of a bit-rate timing table: register-level timing parameters.
#[derive(Debug, Clone, Copy, PartialEq, Eq, Structural)]
pub struct TimingRecord {
    pub tseg1: u32,
    pub tseg2: u32,
    pub sjw: u32,
    /// Sample-point selector.
    pub smp: u32,
    /// Prescaler.
    pub brp: u32,
}

/// The timing table of one device type: arbitration-phase rows keyed by nominal
/// bit rate, an optional distinct data-phase sub-table, and an optional reference
/// clock frequency.
#[derive(Debug, Clone)]
pub struct BitrateCtx {
    pub bitrate: Vec<(u32, TimingRecord)>,
    pub data_bitrate: Option<Vec<(u32, TimingRecord)>>,
    pub clock: Option<u32>,
}

/// Whether no key occurs twice in `rows`.
pub open spec fn keys_distinct<T>(rows: Seq<(u32, T)>) -> bool {
    forall|i: int, j: int| 0 <= i < j < rows.len() ==> rows[i].0 != rows[j].0
}

/// Whether no key occurs twice in `rows`.
pub fn distinct_keys<T>(rows: &Vec<(u32, T)>) -> (r: bool)
    ensures
        r == keys_distinct(rows@),
{
    let mut j: usize = 0;
    while j < rows.len()
        invariant
            j <= rows@.len(),
            forall|a: int, b: int| 0 <= a < b < j ==> rows@[a].0 != rows@[b].0,
        decreases rows@.len() - j,
    {
        let mut i: usize = 0;
        while i < j
            invariant
                i <= j < rows@.len(),
                forall|a: int| 0 <= a < i ==> rows@[a].0 != rows@[j as int].0,
            decreases j - i,
        {
            if rows[i].0 == rows[j].0 {
                assert(!keys_distinct(rows@)) by {
                    assert(rows@[i as int].0 == rows@[j as int].0);
                }
                return false;
            }
            i = i + 1;
        }
        j = j + 1;
    }
    true
}

impl BitrateCtx {
    /// Each rate has one row in each table.
    pub open spec fn wf(&self) -> bool {
        &&& keys_distinct(self.bitrate@)
        &&& (self.data_bitrate matches Some(d) ==> keys_distinct(d@))
    }

    /// The timing table of one device type; an error when a table holds a rate twice.
    pub fn new(bitrate: Vec<(u32, TimingRecord)>, data_bitrate: Option<Vec<(u32, TimingRecord)>>, clock: Option<u32>) -> (r: Result<Self, CanError>)
        ensures
            r is Ok <==> keys_distinct(bitrate@) && (data_bitrate matches Some(d) ==> keys_distinct(d@)),
            r matches Ok(c) ==> c.wf() && c.bitrate@ == bitrate@ && c.data_rows() == (match data_bitrate {
                Some(d) => Some(d@),
                None => None::<Seq<(u32, TimingRecord)>>,
            }) && c.clock == clock,
            r matches Err(e) ==> e is OtherError,
    {
        if !distinct_keys(&bitrate) {
            return Err(CanError::other_error("a bit rate is configured twice"));
        }
        let ok = match &data_bitrate {
            Some(d) => distinct_keys(d),
            None => true,
        };
        if !ok {
            return Err(CanError::other_error("a data bit rate is configured twice"));
        }
        Ok(BitrateCtx { bitrate, data_bitrate, clock })
    }
}

/// The first row of `rows` keyed by `key`.
pub open spec fn lookup(rows: Seq<(u32, TimingRecord)>, key: u32) -> Option<TimingRecord>
    decreases rows.len(),
{
    if rows.len() == 0 {
        None
    } else if rows[0].0 == key {
        Some(rows[0].1)
    } else {
        lookup(rows.drop_first(), key)
    }
}

impl BitrateCtx {
    pub open spec fn data_rows(&self) -> Option<Seq<(u32, TimingRecord)>> {
        match self.data_bitrate {
            Some(d) => Some(d@),
            None => None,
        }
    }
}

/// The timing pair (arbitration phase, data phase) for a nominal bit rate and an
/// optional data bit rate:
/// the nominal rate must be in the arbitration table; a requested data rate is
/// looked up in the data-phase sub-table when there is one, else in the
/// arbitration table, and must be found; without a data rate the data phase takes
/// the sub-table's row for the nominal rate when there is one, else the
/// arbitration row.
pub open spec fn resolve(
    rows: Seq<(u32, TimingRecord)>,
    data_rows: Option<Seq<(u32, TimingRecord)>>,
    bitrate: u32,
    dbitrate: Option<u32>,
) -> Option<(TimingRecord, TimingRecord)> {
    match lookup(rows, bitrate) {
        None => None,
        Some(aset) => match dbitrate {
            Some(v) => match data_rows {
                Some(d) => match lookup(d, v) {
                    Some(dset) => Some((aset, dset)),
                    None => None,
                },
                None => match lookup(rows, v) {
                    Some(dset) => Some((aset, dset)),
                    None => None,
                },
            },
            None => match data_rows {
                Some(d) => match lookup(d, bitrate) {
                    Some(dset) => Some((aset, dset)),
                    None => Some((aset, aset)),
                },
                None => Some((aset, aset)),
            },
        },
    }
}

/// What resolving `bitrate` and `dbitrate` in `ctx` owes: the policy's timing
/// pair, or a configuration error when the policy finds none.
pub open spec fn timing_resolved(
    ctx: BitrateCtx,
    bitrate: u32,
    dbitrate: Option<u32>,
    r: Result<(TimingRecord, TimingRecord), CanError>,
) -> bool {
    match resolve(ctx.bitrate@, ctx.data_rows(), bitrate, dbitrate) {
        Some(p) => r == Ok::<(TimingRecord, TimingRecord), CanError>(p),
        None => r matches Err(CanError::OtherError(_)),
    }
}

/// Resolution is a function of the table and the rates, and follows the
/// four-branch policy: the nominal rate must be configured; a requested data
/// rate comes from the data-phase sub-table when there is one, else from the
/// arbitration table, and must be found there; without a data rate the data
/// phase takes the sub-table's row for the nominal rate when there is one, else
/// the arbitration row.
pub proof fn lemma_resolution_policy(
    ctx: BitrateCtx,
    bitrate: u32,
    dbitrate: Option<u32>,
    r1: Result<(TimingRecord, TimingRecord), CanError>,
    r2: Result<(TimingRecord, TimingRecord), CanError>,
)
    requires
        timing_resolved(ctx, bitrate, dbitrate, r1),
        timing_resolved(ctx, bitrate, dbitrate, r2),
    ensures
        r1 is Ok ==> r1 == r2,
        r1 is Ok <==> r2 is Ok,
        lookup(ctx.bitrate@, bitrate) is None ==> r1 matches Err(CanError::OtherError(_)),
        lookup(ctx.bitrate@, bitrate) matches Some(a) ==> match dbitrate {
            Some(v) => match ctx.data_rows() {
                Some(d) => match lookup(d, v) {
                    Some(ds) => r1 == Ok::<(TimingRecord, TimingRecord), CanError>((a, ds)),
                    None => r1 matches Err(CanError::OtherError(_)),
                },
                None => match lookup(ctx.bitrate@, v) {
                    Some(ds) => r1 == Ok::<(TimingRecord, TimingRecord), CanError>((a, ds)),
                    None => r1 matches Err(CanError::OtherError(_)),
                },
            },
            None => match ctx.data_rows() {
                Some(d) => match lookup(d, bitrate) {
                    Some(ds) => r1 == Ok::<(TimingRecord, TimingRecord), CanError>((a, ds)),
                    None => r1 == Ok::<(TimingRecord, TimingRecord), CanError>((a, a)),
                },
                None => r1 == Ok::<(TimingRecord, TimingRecord), CanError>((a, a)),
            },
        },
{
}

/// Finds the first row keyed by `key`.
pub fn find_timing(rows: &Vec<(u32, TimingRecord)>, key: u32) -> (r: Option<TimingRecord>)
    ensures
        r == lookup(rows@, key),
{
    let mut i: usize = 0;
    assert(rows@.subrange(0, rows@.len() as int) =~= rows@);
    while i < rows.len()
        invariant
            i <= rows@.len(),
            lookup(rows@, key) == lookup(rows@.subrange(i as int, rows@.len() as int), key),
        decreases rows@.len() - i,
    {
        let ghost rest = rows@.subrange(i as int, rows@.len() as int);
        assert(rest.drop_first() =~= rows@.subrange(i + 1, rows@.len() as int));
        if rows[i].0 == key {
            return Some(rows[i].1);
        }
        i = i + 1;
    }
    None
}

/// Resolves the timing pair for `bitrate` and `dbitrate` in `ctx`; a rate that the
/// table does not hold is an error, never a guessed timing.
pub fn resolve_timing(bitrate: u32, dbitrate: Option<u32>, ctx: &BitrateCtx) -> (r: Result<(TimingRecord, TimingRecord), CanError>)
    ensures
        timing_resolved(*ctx, bitrate, dbitrate, r),
{
    let aset = match find_timing(&ctx.bitrate, bitrate) {
        Some(a) => a,
        None => {
            return Err(CanError::other_error("bitrate is not configured in file!"));
        },
    };
    match dbitrate {
        Some(v) => {
            let found = match &ctx.data_bitrate {
                Some(d) => find_timing(d, v),
                None => find_timing(&ctx.bitrate, v),
            };
            match found {
                Some(dset) => Ok((aset, dset)),
                None => Err(CanError::other_error("data bitrate is not configured in file!")),
            }
        },
        None => {
            match &ctx.data_bitrate {
                Some(d) => match find_timing(d, bitrate) {
                    Some(dset) => Ok((aset, dset)),
                    None => Ok((aset, aset)),
                },
                None => Ok((aset, aset)),
            }
        },
    }
}

/// Width limits of the timing fields packed into one register word.
pub open spec fn record_fits(t: TimingRecord) -> bool {
    &&& t.tseg1 <= 0xff
    &&& t.tseg2 <= 0x7f
    &&& t.sjw <= 0x7f
    &&& t.smp <= 0xff
    &&& t.brp <= 0x3ff
}

/// Timing parameters of one phase, as a backend's channel configuration holds them.
#[derive(Debug, Clone, Copy, PartialEq, Eq, Structural)]
pub struct ZCanFdChlCfgSet {
    pub tseg1: u8,
    pub tseg2: u8,
    pub sjw: u8,
    pub smp: u8,
    pub brp: u16,
}

/// The register word `brp<<22 | sjw<<15 | tseg2<<8 | tseg1`, for fields that fit.
pub open spec fn timing_word(tseg1: int, tseg2: int, sjw: int, brp: int) -> int {
    brp * 0x40_0000 + sjw * 0x8000 + tseg2 * 0x100 + tseg1
}

impl ZCanFdChlCfgSet {
    pub open spec fn matches(&self, t: TimingRecord) -> bool {
        &&& self.tseg1 as u32 == t.tseg1
        &&& self.tseg2 as u32 == t.tseg2
        &&& self.sjw as u32 == t.sjw
        &&& self.smp as u32 == t.smp
        &&& self.brp as u32 == t.brp
    }

    pub open spec fn fits(&self) -> bool {
        self.tseg2 <= 0x7f && self.sjw <= 0x7f && self.brp <= 0x3ff
    }

    /// The timing set of the given fields; an error when one does not fit its
    /// register width.
    pub fn new(tseg1: u32, tseg2: u32, sjw: u32, smp: u32, brp: u32) -> (r: Result<Self, CanError>)
        ensures
            r is Ok <==> record_fits(TimingRecord { tseg1, tseg2, sjw, smp, brp }),
            r matches Ok(set) ==> set.matches(TimingRecord { tseg1, tseg2, sjw, smp, brp }) && set.fits(),
            r matches Err(e) ==> e is OtherError,
    {
        if tseg1 > 0xff || tseg2 > 0x7f || sjw > 0x7f || smp > 0xff || brp > 0x3ff {
            return Err(CanError::other_error("timing parameter out of range"));
        }
        Ok(ZCanFdChlCfgSet { tseg1: tseg1 as u8, tseg2: tseg2 as u8, sjw: sjw as u8, smp: smp as u8, brp: brp as u16 })
    }

    pub fn try_from_record(t: &TimingRecord) -> (r: Result<Self, CanError>)
        ensures
            r is Ok <==> record_fits(*t),
            r matches Ok(set) ==> set.matches(*t) && set.fits(),
            r matches Err(e) ==> e is OtherError,
    {
        Self::new(t.tseg1, t.tseg2, t.sjw, t.smp, t.brp)
    }

    /// The timing set packed into one 32-bit register word.
    pub fn get_timing(&self) -> (r: u32)
        requires
            self.fits(),
        ensures
            r as int == timing_word(self.tseg1 as int, self.tseg2 as int, self.sjw as int, self.brp as int),
    {
        let brp = self.brp as u32;
        let sjw = self.sjw as u32;
        let tseg2 = self.tseg2 as u32;
        let tseg1 = self.tseg1 as u32;
        let r = brp << 22u32 | (sjw & 0x7f) << 15u32 | (tseg2 & 0x7f) << 8u32 | tseg1;
        assert(r == brp * 0x40_0000 + sjw * 0x8000 + tseg2 * 0x100 + tseg1) by (bit_vector)
            requires
                brp <= 0x3ff,
                sjw <= 0x7f,
                tseg2 <= 0x7f,
                tseg1 <= 0xff,
                r == brp << 22u32 | (sjw & 0x7f) << 15u32 | (tseg2 & 0x7f) << 8u32 | tseg1,
        ;
        r
    }
}

/// Resolves the timing pair for a channel and converts both phases to timing
/// sets: an error when a rate is not configured or a field does not fit.
pub fn get_fd_set(bitrate: u32, dbitrate: Option<u32>, ctx: &BitrateCtx) -> (r: Result<(ZCanFdChlCfgSet, ZCanFdChlCfgSet), CanError>)
    ensures
        r is Ok <==> (match resolve(ctx.bitrate@, ctx.data_rows(), bitrate, dbitrate) {
            Some(p) => record_fits(p.0) && record_fits(p.1),
            None => false,
        }),
        r matches Ok(sets) ==> {
            let p = resolve(ctx.bitrate@, ctx.data_rows(), bitrate, dbitrate)->Some_0;
            sets.0.matches(p.0) && sets.1.matches(p.1) && sets.0.fits() && sets.1.fits()
        },
        r matches Err(e) ==> e is OtherError,
{
    let (aset, dset) = resolve_timing(bitrate, dbitrate, ctx)?;
    let a = ZCanFdChlCfgSet::try_from_record(&aset)?;
    let d = ZCanFdChlCfgSet::try_from_record(&dset)?;
    Ok((a, d))
}

/// With no data-phase sub-table and no data bit rate, the two timing sets that
/// `get_fd_set` yields are the same, field by field.
pub proof fn lemma_no_data_table_same_sets(ctx: BitrateCtx, bitrate: u32, sets: (ZCanFdChlCfgSet, ZCanFdChlCfgSet))
    requires
        ctx.data_bitrate is None,
        resolve(ctx.bitrate@, ctx.data_rows(), bitrate, None) is Some,
        sets.0.matches(resolve(ctx.bitrate@, ctx.data_rows(), bitrate, None)->Some_0.0),
        sets.1.matches(resolve(ctx.bitrate@, ctx.data_rows(), bitrate, None)->Some_0.1),
    ensures
        sets.0 == sets.1,
{
}

/// Channel protocol variant.
#[allow(non_camel_case_types)]
#[derive(Debug, Clone, Copy, PartialEq, Eq, Structural)]
pub enum ZCanChlType {
    CAN,
    CANFD_ISO,
    CANFD_NON_ISO,
}

/// Channel work mode.
#[derive(Debug, Clone, Copy, PartialEq, Eq, Structural)]
pub enum ZCanChlMode {
    Normal,
    ListenOnly,
}

impl ZCanChlType {
    pub open spec fn spec_code(self) -> u8 {
        match self {
            ZCanChlType::CAN => 0,
            ZCanChlType::CANFD_ISO => 1,
            ZCanChlType::CANFD_NON_ISO => 2,
        }
    }

    pub fn code(self) -> (r: u8)
        ensures
            r == self.spec_code(),
    {
        match self {
            ZCanChlType::CAN => 0,
            ZCanChlType::CANFD_ISO => 1,
            ZCanChlType::CANFD_NON_ISO => 2,
        }
    }

    pub fn try_from_code(value: u8) -> (r: Result<Self, CanError>)
        ensures
            r is Ok <==> value <= 2,
            r matches Ok(t) ==> t.spec_code() == value,
            r matches Err(e) ==> e is OtherError,
    {
        match value {
            0 => Ok(ZCanChlType::CAN),
            1 => Ok(ZCanChlType::CANFD_ISO),
            2 => Ok(ZCanChlType::CANFD_NON_ISO),
            _ => Err(CanError::other_error("parameter not supported")),
        }
    }
}

impl ZCanChlMode {
    pub open spec fn spec_code(self) -> u8 {
        match self {
            ZCanChlMode::Normal => 0,
            ZCanChlMode::ListenOnly => 1,
        }
    }

    pub fn code(self) -> (r: u8)
        ensures
            r == self.spec_code(),
    {
        match self {
            ZCanChlMode::Normal => 0,
            ZCanChlMode::ListenOnly => 1,
        }
    }

    pub fn try_from_code(value: u8) -> (r: Result<Self, CanError>)
        ensures
            r is Ok <==> value <= 1,
            r matches Ok(m) ==> m.spec_code() == value,
            r matches Err(e) ==> e is OtherError,
    {
        match value {
            0 => Ok(ZCanChlMode::Normal),
            1 => Ok(ZCanChlMode::ListenOnly),
            _ => Err(CanError::other_error("parameter not supported")),
        }
    }
}

/// A CAN-FD channel configuration: clock, mode word (bit 0 listen-only, bit 1
/// non-ISO), and both phases' timing sets.
#[derive(Debug, Clone, Copy, PartialEq, Eq, Structural)]
pub struct ZCanFdChlCfgInner {
    pub clk: u32,
    pub mode: u32,
    pub aset: ZCanFdChlCfgSet,
    pub dset: ZCanFdChlCfgSet,
}

impl ZCanFdChlCfgInner {
    pub fn new(
        can_type: ZCanChlType,
        mode: ZCanChlMode,
        clock: u32,
        aset: ZCanFdChlCfgSet,
        dset: ZCanFdChlCfgSet,
    ) -> (r: Self)
        ensures
            r.clk == clock,
            r.mode == mode.spec_code() as u32 + (if can_type == ZCanChlType::CANFD_NON_ISO { 2u32 } else { 0u32 }),
            r.aset == aset,
            r.dset == dset,
    {
        let mut m = mode.code() as u32;
        if can_type == ZCanChlType::CANFD_NON_ISO {
            assert(m | 2 == m + 2) by (bit_vector)
                requires
                    m <= 1,
            ;
            m = m | 2;
        }
        ZCanFdChlCfgInner { clk: clock, mode: m, aset, dset }
    }
}

/// The CAN-FD channel configuration for a channel: timing sets resolved from the
/// table and the table's clock, which must be configured.
pub fn get_fd_cfg(
    can_type: ZCanChlType,
    mode: ZCanChlMode,
    bitrate: u32,
    dbitrate: Option<u32>,
    ctx: &BitrateCtx,
) -> (r: Result<ZCanFdChlCfgInner, CanError>)
    ensures
        r is Ok <==> (ctx.clock is Some && match resolve(ctx.bitrate@, ctx.data_rows(), bitrate, dbitrate) {
            Some(p) => record_fits(p.0) && record_fits(p.1),
            None => false,
        }),
        r matches Ok(cfg) ==> {
            let p = resolve(ctx.bitrate@, ctx.data_rows(), bitrate, dbitrate)->Some_0;
            &&& cfg.aset.matches(p.0) && cfg.dset.matches(p.1)
            &&& cfg.clk == ctx.clock->Some_0
            &&& cfg.mode == mode.spec_code() as u32 + (if can_type == ZCanChlType::CANFD_NON_ISO { 2u32 } else { 0u32 })
        },
        r matches Err(e) ==> e is OtherError,
{
    let (aset, dset) = get_fd_set(bitrate, dbitrate, ctx)?;
    let clock = match ctx.clock {
        Some(c) => c,
        None => {
            return Err(CanError::other_error("`clock` is not configured in file!"));
        },
    };
    Ok(ZCanFdChlCfgInner::new(can_type, mode, clock, aset, dset))
}

/// The timing tables of all device types, keyed by the device type's numeric
/// identifier. Loaded once and read-only afterwards.
#[derive(Debug, Clone)]
pub struct BitrateTables {
    pub devices: Vec<(u32, BitrateCtx)>,
}

/// The first table of `devices` keyed by `key`.
pub open spec fn table_of(devices: Seq<(u32, BitrateCtx)>, key: u32) -> Option<BitrateCtx>
    decreases devices.len(),
{
    if devices.len() == 0 {
        None
    } else if devices[0].0 == key {
        Some(devices[0].1)
    } else {
        table_of(devices.drop_first(), key)
    }
}

impl BitrateTables {
    /// Each device type has one table, and each table is well formed.
    pub open spec fn wf(&self) -> bool {
        &&& keys_distinct(self.devices@)
        &&& forall|i: int| 0 <= i < self.devices@.len() ==> (#[trigger] self.devices@[i]).1.wf()
    }

    pub fn new() -> (r: Self)
        ensures
            r.wf(),
            r.devices@.len() == 0,
    {
        BitrateTables { devices: Vec::new() }
    }

    /// Adds the table of the device type `code`; an error when that type
    /// already has one.
    pub fn add(&mut self, code: u32, ctx: BitrateCtx) -> (r: Result<(), CanError>)
        requires
            old(self).wf(),
            ctx.wf(),
        ensures
            final(self).wf(),
            r is Ok <==> (forall|i: int| 0 <= i < old(self).devices@.len() ==> old(self).devices@[i].0 != code),
            r is Ok ==> final(self).devices@ == old(self).devices@.push((code, ctx)),
            r is Err ==> final(self).devices@ == old(self).devices@ && r matches Err(CanError::InitializeError(_)),
    {
        let mut i: usize = 0;
        while i < self.devices.len()
            invariant
                i <= self.devices@.len(),
                self.devices@ == old(self).devices@,
                old(self).wf(),
                self.devices == old(self).devices,
                forall|j: int| 0 <= j < i ==> self.devices@[j].0 != code,
            decreases self.devices@.len() - i,
        {
            if self.devices[i].0 == code {
                return Err(CanError::InitializeError(String::from_str("device type is configured twice")));
            }
            i = i + 1;
        }
        self.devices.push((code, ctx));
        assert forall|j: int| 0 <= j < self.devices@.len() implies (#[trigger] self.devices@[j]).1.wf() by {
            if j < old(self).devices@.len() {
                assert(old(self).devices@[j].1.wf());
            }
        }
        Ok(())
    }

    /// The table of the device type `code`; an initialization error when the
    /// file configures no such device type.
    pub fn get(&self, code: u32) -> (r: Result<&BitrateCtx, CanError>)
        ensures
            match table_of(self.devices@, code) {
                Some(t) => r matches Ok(c) && *c == t,
                None => r matches Err(CanError::InitializeError(_)),
            },
    {
        let mut i: usize = 0;
        assert(self.devices@.subrange(0, self.devices@.len() as int) =~= self.devices@);
        while i < self.devices.len()
            invariant
                i <= self.devices@.len(),
                table_of(self.devices@, code) == table_of(self.devices@.subrange(i as int, self.devices@.len() as int), code),
            decreases self.devices@.len() - i,
        {
            let ghost rest = self.devices@.subrange(i as int, self.devices@.len() as int);
            assert(rest.drop_first() =~= self.devices@.subrange(i + 1, self.devices@.len() as int));
            if self.devices[i].0 == code {
                return Ok(&self.devices[i].1);
            }
            i = i + 1;
        }
        Err(CanError::InitializeError(String::from_str("device type is not configured in the bit rate file")))
    }
}

} // verus!
