use vstd::prelude::*;

use crate::error::CanError;

verus! {

/// Extension key of the channel type (classic, FD ISO, FD non-ISO), stored as `U8`.
pub const CHANNEL_TYPE: &'static str = "ZCanChlType";
/// Extension key of the channel mode (normal, listen-only), stored as `U8`.
pub const CHANNEL_MODE: &'static str = "ZCanChlMode";

/// A device-specific value kept in the extension map of a configuration.
#[derive(Clone, Copy, Debug, PartialEq, Eq, Structural)]
pub enum ExtraValue {
    U8(u8),
    U32(u32),
    Bool(bool),
}

/// The value of `key` in a list of extension entries: the last entry with that key wins.
pub open spec fn lookup_extra(s: Seq<(String, ExtraValue)>, key: Seq<char>) -> Option<
    ExtraValue,
>
    decreases s.len(),
{
    if s.len() == 0 {
        None
    } else if s.last().0@ == key {
        Some(s.last().1)
    } else {
        lookup_extra(s.drop_last(), key)
    }
}

/// Bus parameters of one channel: nominal bitrate, optional data bitrate and termination,
/// and an open map of device-specific extras.
#[derive(Clone, Debug)]
pub struct ChannelConfig {
    bitrate: u32,
    dbitrate: Option<u32>,
    resistance: Option<bool>,
    extras: Vec<(String, ExtraValue)>,
}

impl ChannelConfig {
    pub closed spec fn spec_bitrate(&self) -> u32 {
        self.bitrate
    }

    pub closed spec fn spec_dbitrate(&self) -> Option<u32> {
        self.dbitrate
    }

    pub closed spec fn spec_resistance(&self) -> Option<bool> {
        self.resistance
    }

    /// The value stored under `key`, if any.
    pub closed spec fn extra(&self, key: Seq<char>) -> Option<ExtraValue> {
        lookup_extra(self.extras@, key)
    }

    pub open spec fn wf(&self) -> bool {
        self.spec_bitrate() > 0
    }

    /// A configuration with only the nominal bitrate set.
    pub fn new(bitrate: u32) -> (r: ChannelConfig)
        requires
            bitrate > 0,
        ensures
            r.wf(),
            r.spec_bitrate() == bitrate,
            r.spec_dbitrate() is None,
            r.spec_resistance() is None,
            forall|k: Seq<char>| r.extra(k) is None,
    {
        ChannelConfig { bitrate, dbitrate: None, resistance: None, extras: Vec::new() }
    }

    pub fn with_data_bitrate(self, dbitrate: u32) -> (r: ChannelConfig)
        ensures
            r.spec_bitrate() == self.spec_bitrate(),
            r.spec_dbitrate() == Some(dbitrate),
            r.spec_resistance() == self.spec_resistance(),
            forall|k: Seq<char>| r.extra(k) == self.extra(k),
    {
        ChannelConfig { dbitrate: Some(dbitrate), ..self }
    }

    pub fn with_resistance(self, resistance: bool) -> (r: ChannelConfig)
        ensures
            r.spec_bitrate() == self.spec_bitrate(),
            r.spec_dbitrate() == self.spec_dbitrate(),
            r.spec_resistance() == Some(resistance),
            forall|k: Seq<char>| r.extra(k) == self.extra(k),
    {
        ChannelConfig { resistance: Some(resistance), ..self }
    }

    pub fn bitrate(&self) -> (r: u32)
        ensures
            r == self.spec_bitrate(),
    {
        self.bitrate
    }

    pub fn dbitrate(&self) -> (r: Option<u32>)
        ensures
            r == self.spec_dbitrate(),
    {
        self.dbitrate
    }

    pub fn resistance(&self) -> (r: Option<bool>)
        ensures
            r == self.spec_resistance(),
    {
        self.resistance
    }

    /// Stores `value` under `key`, replacing what was there.
    pub fn set_extra(&mut self, key: &str, value: ExtraValue)
        ensures
            final(self).spec_bitrate() == old(self).spec_bitrate(),
            final(self).spec_dbitrate() == old(self).spec_dbitrate(),
            final(self).spec_resistance() == old(self).spec_resistance(),
            final(self).extra(key@) == Some(value),
            forall|k: Seq<char>| k != key@ ==> final(self).extra(k) == old(self).extra(k),
    {
        let k = key.to_owned();
        self.extras.push((k, value));
        proof {
            assert(self.extras@.drop_last() =~= old(self).extras@);
        }
    }

    /// The value stored under `key`, if any.
    pub fn get_extra(&self, key: &str) -> (r: Option<ExtraValue>)
        ensures
            r == self.extra(key@),
    {
        let k = key.to_owned();
        let mut i: usize = self.extras.len();
        assert(self.extras@.subrange(0, i as int) =~= self.extras@);
        while i > 0
            invariant
                i <= self.extras@.len(),
                k@ == key@,
                lookup_extra(self.extras@, key@) == lookup_extra(
                    self.extras@.subrange(0, i as int),
                    key@,
                ),
            decreases i,
        {
            let ghost prefix = self.extras@.subrange(0, i as int);
            assert(prefix.drop_last() =~= self.extras@.subrange(0, i - 1));
            if self.extras[i - 1].0 == k {
                return Some(self.extras[i - 1].1);
            }
            i = i - 1;
        }
        None
    }

    /// The `u8` stored under `key`: `None` where nothing is stored, `TypeMismatch` where
    /// a value of another type is.
    pub fn get_u8(&self, key: &str) -> (r: Result<Option<u8>, CanError>)
        ensures
            match self.extra(key@) {
                None => r == Ok::<Option<u8>, CanError>(None),
                Some(ExtraValue::U8(v)) => r == Ok::<Option<u8>, CanError>(Some(v)),
                Some(_) => r == Err::<Option<u8>, CanError>(CanError::TypeMismatch),
            },
    {
        match self.get_extra(key) {
            None => Ok(None),
            Some(ExtraValue::U8(v)) => Ok(Some(v)),
            Some(_) => Err(CanError::TypeMismatch),
        }
    }

    /// The `u32` stored under `key`: `None` where nothing is stored, `TypeMismatch` where
    /// a value of another type is.
    pub fn get_u32(&self, key: &str) -> (r: Result<Option<u32>, CanError>)
        ensures
            match self.extra(key@) {
                None => r == Ok::<Option<u32>, CanError>(None),
                Some(ExtraValue::U32(v)) => r == Ok::<Option<u32>, CanError>(Some(v)),
                Some(_) => r == Err::<Option<u32>, CanError>(CanError::TypeMismatch),
            },
    {
        match self.get_extra(key) {
            None => Ok(None),
            Some(ExtraValue::U32(v)) => Ok(Some(v)),
            Some(_) => Err(CanError::TypeMismatch),
        }
    }

    /// The `bool` stored under `key`: `None` where nothing is stored, `TypeMismatch`
    /// where a value of another type is.
    pub fn get_bool(&self, key: &str) -> (r: Result<Option<bool>, CanError>)
        ensures
            match self.extra(key@) {
                None => r == Ok::<Option<bool>, CanError>(None),
                Some(ExtraValue::Bool(v)) => r == Ok::<Option<bool>, CanError>(Some(v)),
                Some(_) => r == Err::<Option<bool>, CanError>(CanError::TypeMismatch),
            },
    {
        match self.get_extra(key) {
            None => Ok(None),
            Some(ExtraValue::Bool(v)) => Ok(Some(v)),
            Some(_) => Err(CanError::TypeMismatch),
        }
    }
}

} // verus!
