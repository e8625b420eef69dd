use vstd::prelude::*;
use crate::bitrate::{ZCanChlMode, ZCanChlType};
use crate::device::{DeriveInfo, ZCanDeviceType};
use crate::error::CanError;
use crate::keyed::{find_key, keyed_view, keys_unique, lemma_keyed_view_push, lemma_keyed_view_update};

verus! {

/// An acceptance filter: frames whose identifier matches `can_id` under `can_mask` pass.
#[derive(Debug, Clone, Copy, PartialEq, Eq, Structural)]
pub struct CanFilter {
    pub can_id: u32,
    pub can_mask: u32,
    pub extended: bool,
}

/// The type a configuration value was stored under.
#[derive(Debug, Clone, Copy, PartialEq, Eq, Structural)]
pub enum ValueTag {
    Bool,
    U8,
    U32,
    Str,
    Filters,
    DeviceType,
    ChannelType,
    ChannelMode,
    Derive,
}

/// A configuration value together with the type it was stored under.
#[derive(Debug, Clone)]
pub enum OtherValue {
    Bool(bool),
    U8(u8),
    U32(u32),
    Str(String),
    Filters(Vec<CanFilter>),
    DeviceType(ZCanDeviceType),
    ChannelType(ZCanChlType),
    ChannelMode(ZCanChlMode),
    Derive(DeriveInfo),
}

impl OtherValue {
    pub open spec fn spec_tag(&self) -> ValueTag {
        match self {
            OtherValue::Bool(_) => ValueTag::Bool,
            OtherValue::U8(_) => ValueTag::U8,
            OtherValue::U32(_) => ValueTag::U32,
            OtherValue::Str(_) => ValueTag::Str,
            OtherValue::Filters(_) => ValueTag::Filters,
            OtherValue::DeviceType(_) => ValueTag::DeviceType,
            OtherValue::ChannelType(_) => ValueTag::ChannelType,
            OtherValue::ChannelMode(_) => ValueTag::ChannelMode,
            OtherValue::Derive(_) => ValueTag::Derive,
        }
    }

    /// Equality of stored values, comparing filter lists by their contents.
    pub open spec fn same(self, other: OtherValue) -> bool {
        match (self, other) {
            (OtherValue::Filters(a), OtherValue::Filters(b)) => a@ == b@,
            _ => self == other,
        }
    }

    pub fn tag(&self) -> (r: ValueTag)
        ensures
            r == self.spec_tag(),
    {
        match self {
            OtherValue::Bool(_) => ValueTag::Bool,
            OtherValue::U8(_) => ValueTag::U8,
            OtherValue::U32(_) => ValueTag::U32,
            OtherValue::Str(_) => ValueTag::Str,
            OtherValue::Filters(_) => ValueTag::Filters,
            OtherValue::DeviceType(_) => ValueTag::DeviceType,
            OtherValue::ChannelType(_) => ValueTag::ChannelType,
            OtherValue::ChannelMode(_) => ValueTag::ChannelMode,
            OtherValue::Derive(_) => ValueTag::Derive,
        }
    }
}

/// A type whose values can be stored in, and fetched back from, a property bag.
pub trait OtherType: Sized {
    /// The tag that values of this type are stored under.
    spec fn spec_tag() -> ValueTag;

    /// The stored form of `x`.
    spec fn spec_wrap(x: Self) -> OtherValue;

    /// A stored value carries the tag of its type.
    proof fn lemma_wrap_tag(x: Self)
        ensures
            Self::spec_wrap(x).spec_tag() == Self::spec_tag();

    fn tag() -> (r: ValueTag)
        ensures
            r == Self::spec_tag();

    fn wrap(self) -> (v: OtherValue)
        ensures
            v == Self::spec_wrap(self),
            v.spec_tag() == Self::spec_tag();

    /// The value held by `v`, when it was stored under this type.
    fn unwrap(v: &OtherValue) -> (r: Option<Self>)
        ensures
            r is Some <==> v.spec_tag() == Self::spec_tag(),
            r matches Some(x) ==> Self::spec_wrap(x).same(*v);
}

impl OtherType for bool {
    open spec fn spec_tag() -> ValueTag { ValueTag::Bool }
    open spec fn spec_wrap(x: bool) -> OtherValue { OtherValue::Bool(x) }
    proof fn lemma_wrap_tag(x: bool) {}
    fn tag() -> (r: ValueTag) { ValueTag::Bool }
    fn wrap(self) -> (v: OtherValue) { OtherValue::Bool(self) }
    fn unwrap(v: &OtherValue) -> (r: Option<bool>) {
        match v { OtherValue::Bool(x) => Some(*x), _ => None }
    }
}

impl OtherType for u8 {
    open spec fn spec_tag() -> ValueTag { ValueTag::U8 }
    open spec fn spec_wrap(x: u8) -> OtherValue { OtherValue::U8(x) }
    proof fn lemma_wrap_tag(x: u8) {}
    fn tag() -> (r: ValueTag) { ValueTag::U8 }
    fn wrap(self) -> (v: OtherValue) { OtherValue::U8(self) }
    fn unwrap(v: &OtherValue) -> (r: Option<u8>) {
        match v { OtherValue::U8(x) => Some(*x), _ => None }
    }
}

impl OtherType for u32 {
    open spec fn spec_tag() -> ValueTag { ValueTag::U32 }
    open spec fn spec_wrap(x: u32) -> OtherValue { OtherValue::U32(x) }
    proof fn lemma_wrap_tag(x: u32) {}
    fn tag() -> (r: ValueTag) { ValueTag::U32 }
    fn wrap(self) -> (v: OtherValue) { OtherValue::U32(self) }
    fn unwrap(v: &OtherValue) -> (r: Option<u32>) {
        match v { OtherValue::U32(x) => Some(*x), _ => None }
    }
}

impl OtherType for String {
    open spec fn spec_tag() -> ValueTag { ValueTag::Str }
    open spec fn spec_wrap(x: String) -> OtherValue { OtherValue::Str(x) }
    proof fn lemma_wrap_tag(x: String) {}
    fn tag() -> (r: ValueTag) { ValueTag::Str }
    fn wrap(self) -> (v: OtherValue) { OtherValue::Str(self) }
    fn unwrap(v: &OtherValue) -> (r: Option<String>) {
        match v { OtherValue::Str(x) => Some(x.clone()), _ => None }
    }
}

impl OtherType for ZCanDeviceType {
    open spec fn spec_tag() -> ValueTag { ValueTag::DeviceType }
    open spec fn spec_wrap(x: ZCanDeviceType) -> OtherValue { OtherValue::DeviceType(x) }
    proof fn lemma_wrap_tag(x: ZCanDeviceType) {}
    fn tag() -> (r: ValueTag) { ValueTag::DeviceType }
    fn wrap(self) -> (v: OtherValue) { OtherValue::DeviceType(self) }
    fn unwrap(v: &OtherValue) -> (r: Option<ZCanDeviceType>) {
        match v { OtherValue::DeviceType(x) => Some(*x), _ => None }
    }
}

impl OtherType for ZCanChlType {
    open spec fn spec_tag() -> ValueTag { ValueTag::ChannelType }
    open spec fn spec_wrap(x: ZCanChlType) -> OtherValue { OtherValue::ChannelType(x) }
    proof fn lemma_wrap_tag(x: ZCanChlType) {}
    fn tag() -> (r: ValueTag) { ValueTag::ChannelType }
    fn wrap(self) -> (v: OtherValue) { OtherValue::ChannelType(self) }
    fn unwrap(v: &OtherValue) -> (r: Option<ZCanChlType>) {
        match v { OtherValue::ChannelType(x) => Some(*x), _ => None }
    }
}

impl OtherType for ZCanChlMode {
    open spec fn spec_tag() -> ValueTag { ValueTag::ChannelMode }
    open spec fn spec_wrap(x: ZCanChlMode) -> OtherValue { OtherValue::ChannelMode(x) }
    proof fn lemma_wrap_tag(x: ZCanChlMode) {}
    fn tag() -> (r: ValueTag) { ValueTag::ChannelMode }
    fn wrap(self) -> (v: OtherValue) { OtherValue::ChannelMode(self) }
    fn unwrap(v: &OtherValue) -> (r: Option<ZCanChlMode>) {
        match v { OtherValue::ChannelMode(x) => Some(*x), _ => None }
    }
}

impl OtherType for DeriveInfo {
    open spec fn spec_tag() -> ValueTag { ValueTag::Derive }
    open spec fn spec_wrap(x: DeriveInfo) -> OtherValue { OtherValue::Derive(x) }
    proof fn lemma_wrap_tag(x: DeriveInfo) {}
    fn tag() -> (r: ValueTag) { ValueTag::Derive }
    fn wrap(self) -> (v: OtherValue) { OtherValue::Derive(self) }
    fn unwrap(v: &OtherValue) -> (r: Option<DeriveInfo>) {
        match v { OtherValue::Derive(x) => Some(*x), _ => None }
    }
}

impl OtherType for Vec<CanFilter> {
    open spec fn spec_tag() -> ValueTag { ValueTag::Filters }
    open spec fn spec_wrap(x: Vec<CanFilter>) -> OtherValue { OtherValue::Filters(x) }
    proof fn lemma_wrap_tag(x: Vec<CanFilter>) {}
    fn tag() -> (r: ValueTag) { ValueTag::Filters }
    fn wrap(self) -> (v: OtherValue) { OtherValue::Filters(self) }
    fn unwrap(v: &OtherValue) -> (r: Option<Vec<CanFilter>>) {
        match v {
            OtherValue::Filters(x) => {
                let mut out: Vec<CanFilter> = Vec::new();
                let mut i: usize = 0;
                while i < x.len()
                    invariant
                        i <= x@.len(),
                        out@ == x@.subrange(0, i as int),
                    decreases x@.len() - i,
                {
                    out.push(x[i]);
                    i = i + 1;
                }
                assert(out@ == x@);
                Some(out)
            },
            _ => None,
        }
    }
}

/// A property bag: values of any storable type under string keys, one entry
/// per name.
#[derive(Debug, Clone)]
pub struct Others {
    pub entries: Vec<(String, OtherValue)>,
}

/// The outcome that fetching `name` under type `T` owes on a bag whose map is `m`:
/// nothing when the name is unset, the stored value when it was stored under `T`,
/// a type mismatch otherwise.
pub open spec fn fetched<T: OtherType>(m: Map<Seq<char>, OtherValue>, name: Seq<char>, r: Result<Option<T>, CanError>) -> bool {
    if !m.dom().contains(name) {
        r == Ok::<Option<T>, CanError>(None)
    } else if m[name].spec_tag() == T::spec_tag() {
        r matches Ok(Some(x)) && T::spec_wrap(x).same(m[name])
    } else {
        r matches Err(CanError::TypeMismatch(_))
    }
}

impl Others {
    pub open spec fn view(&self) -> Map<Seq<char>, OtherValue> {
        keyed_view(self.entries@)
    }

    /// No name is stored twice.
    pub open spec fn wf(&self) -> bool {
        keys_unique(self.entries@)
    }

    pub fn new() -> (r: Others)
        ensures
            r.wf(),
            r@ == Map::<Seq<char>, OtherValue>::empty(),
    {
        Others { entries: Vec::new() }
    }

    /// Stores `value` under `name`, replacing what was there.
    pub fn insert<T: OtherType>(&mut self, name: &str, value: T)
        requires
            old(self).wf(),
        ensures
            final(self).wf(),
            final(self)@ == old(self)@.insert(name@, T::spec_wrap(value)),
    {
        let v = value.wrap();
        let entry = (name.to_owned(), v);
        match find_key(&self.entries, name) {
            Some(i) => {
                proof {
                    lemma_keyed_view_update(self.entries@, i as int, entry);
                }
                self.entries.set(i, entry);
            },
            None => {
                proof {
                    lemma_keyed_view_push(self.entries@, entry);
                }
                self.entries.push(entry);
            },
        }
    }

    /// The value stored under `name`, fetched as a `T`.
    pub fn get<T: OtherType>(&self, name: &str) -> (r: Result<Option<T>, CanError>)
        requires
            self.wf(),
        ensures
            fetched::<T>(self@, name@, r),
    {
        match find_key(&self.entries, name) {
            None => Ok(None),
            Some(i) => {
                let v = &self.entries[i].1;
                if v.tag() == T::tag() {
                    match T::unwrap(v) {
                        Some(x) => Ok(Some(x)),
                        None => Err(CanError::type_mismatch(name)),
                    }
                } else {
                    Err(CanError::type_mismatch(name))
                }
            },
        }
    }
}

/// Storing a value under one type and fetching it under another type fails with
/// a type mismatch, never with a converted value.
pub proof fn lemma_fetch_mismatched_type<U: OtherType, T: OtherType>(
    bag: Map<Seq<char>, OtherValue>,
    name: Seq<char>,
    x: U,
    r: Result<Option<T>, CanError>,
)
    requires
        U::spec_tag() != T::spec_tag(),
        fetched::<T>(bag.insert(name, U::spec_wrap(x)), name, r),
    ensures
        r matches Err(CanError::TypeMismatch(_)),
{
    U::lemma_wrap_tag(x);
}

/// Storing a value and fetching it under the same type gives the value back.
pub proof fn lemma_fetch_stored_value<T: OtherType>(
    bag: Map<Seq<char>, OtherValue>,
    name: Seq<char>,
    x: T,
    r: Result<Option<T>, CanError>,
)
    requires
        fetched::<T>(bag.insert(name, T::spec_wrap(x)), name, r),
    ensures
        r matches Ok(Some(y)) && T::spec_wrap(y).same(T::spec_wrap(x)),
{
    T::lemma_wrap_tag(x);
}

} // verus!
