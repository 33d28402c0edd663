use vstd::prelude::*;
use vstd::string::StringSliceAdditionalSpecFns;

use crate::config::ChannelConfig;
use crate::error::{CanError, Failure};

verus! {

/// The bus timing register values of one bitrate.
#[derive(Clone, Copy, Debug, PartialEq, Eq, Structural)]
pub struct BusTiming {
    pub tseg1: u8,
    pub tseg2: u8,
    pub sjw: u8,
    pub smp: u8,
    pub brp: u16,
}

/// Everything the native channel initialisation needs of the bus timing.
#[derive(Clone, Copy, Debug, PartialEq, Eq, Structural)]
pub struct TimingDescriptor {
    pub clock: u32,
    pub nominal: BusTiming,
    pub data: BusTiming,
}

/// The key of a timing preset: device type code, data phase or not, bitrate.
#[derive(Clone, Copy, Debug, PartialEq, Eq, Structural)]
pub struct PresetKey {
    pub family: u32,
    pub data_phase: bool,
    pub bitrate: u32,
}

pub open spec fn is_digit(b: u8) -> bool {
    0x30 <= b <= 0x39
}

pub open spec fn all_digits(b: Seq<u8>) -> bool {
    forall|i: int| 0 <= i < b.len() ==> is_digit(b[i])
}

/// The number written in decimal by a sequence of digits.
pub open spec fn decimal_value(b: Seq<u8>) -> nat
    decreases b.len(),
{
    if b.len() == 0 {
        0
    } else {
        decimal_value(b.drop_last()) * 10 + (b.last() - 0x30) as nat
    }
}

/// A key of the preset source: a non-empty decimal number that fits in `u32`.
pub open spec fn key_ok(b: Seq<u8>) -> bool {
    b.len() > 0 && all_digits(b) && decimal_value(b) <= u32::MAX
}

proof fn lemma_prefix_value_le(b: Seq<u8>, i: int)
    requires
        all_digits(b),
        0 <= i <= b.len(),
    ensures
        decimal_value(b.subrange(0, i)) <= decimal_value(b),
    decreases b.len() - i,
{
    if i < b.len() {
        let d = b.drop_last();
        assert(all_digits(d));
        lemma_prefix_value_le(d, i);
        assert(d.subrange(0, i) =~= b.subrange(0, i));
    } else {
        assert(b.subrange(0, i) =~= b);
    }
}

/// The number that a string-encoded key of the preset source names; `ConfigLoadError`
/// where the key is empty, holds another character than a digit, or exceeds `u32`.
pub fn parse_key(key: &str) -> (r: Result<u32, CanError>)
    ensures
        key_ok(key.spec_bytes()) ==> r == Ok::<u32, CanError>(
            decimal_value(key.spec_bytes()) as u32,
        ),
        !key_ok(key.spec_bytes()) ==> r == Err::<u32, CanError>(CanError::ConfigLoadError),
{
    let b = key.as_bytes();
    if b.len() == 0 {
        return Err(CanError::ConfigLoadError);
    }
    let mut acc: u32 = 0;
    let mut i: usize = 0;
    while i < b.len()
        invariant
            b@ == key.spec_bytes(),
            i <= b@.len(),
            all_digits(b@.subrange(0, i as int)),
            acc as nat == decimal_value(b@.subrange(0, i as int)),
        decreases b@.len() - i,
    {
        let c = b[i];
        let ghost next = b@.subrange(0, i + 1);
        assert(next.drop_last() =~= b@.subrange(0, i as int));
        if c < 0x30 || c > 0x39 {
            assert(!all_digits(b@));
            return Err(CanError::ConfigLoadError);
        }
        let d: u32 = (c - 0x30) as u32;
        if acc > 429496729 || (acc == 429496729 && d > 5) {
            proof {
                if all_digits(b@) {
                    lemma_prefix_value_le(b@, i + 1);
                }
            }
            return Err(CanError::ConfigLoadError);
        }
        acc = acc * 10 + d;
        i = i + 1;
    }
    assert(b@.subrange(0, i as int) =~= b@);
    Ok(acc)
}

/// The value of `k` in a clock list: the last entry with that family wins.
pub open spec fn lookup_clock(s: Seq<(u32, u32)>, family: u32) -> Option<u32>
    decreases s.len(),
{
    if s.len() == 0 {
        None
    } else if s.last().0 == family {
        Some(s.last().1)
    } else {
        lookup_clock(s.drop_last(), family)
    }
}

/// The timing of `k` in a preset list: the last entry with that key wins.
pub open spec fn lookup_timing(s: Seq<(PresetKey, BusTiming)>, k: PresetKey) -> Option<
    BusTiming,
>
    decreases s.len(),
{
    if s.len() == 0 {
        None
    } else if s.last().0 == k {
        Some(s.last().1)
    } else {
        lookup_timing(s.drop_last(), k)
    }
}

/// Per device type: its clock, and the exact timing presets of each bitrate, for the
/// arbitration phase and for the data phase.
pub struct PresetTable {
    clocks: Vec<(u32, u32)>,
    presets: Vec<(PresetKey, BusTiming)>,
}

/// What resolution yields for a table: the family must be configured and the nominal
/// bitrate must have an exact preset; where a data bitrate is requested it must have an
/// exact data-phase preset too, and where none is, the data phase runs on the nominal
/// timing.
pub open spec fn resolve_spec(
    clock: Option<u32>,
    nominal: Option<BusTiming>,
    dbitrate: Option<u32>,
    data: Option<BusTiming>,
    family: u32,
    bitrate: u32,
) -> Result<TimingDescriptor, CanError> {
    match clock {
        None => Err(CanError::InitializeError(Failure::FamilyNotConfigured(family))),
        Some(c) => match nominal {
            None => Err(CanError::UnsupportedBitrateError(bitrate)),
            Some(a) => match dbitrate {
                None => Ok(TimingDescriptor { clock: c, nominal: a, data: a }),
                Some(db) => match data {
                    None => Err(CanError::UnsupportedBitrateError(db)),
                    Some(d) => Ok(TimingDescriptor { clock: c, nominal: a, data: d }),
                },
            },
        },
    }
}

/// The data-phase preset key that a configuration asks for, if any.
pub open spec fn data_key(family: u32, cfg: &ChannelConfig) -> PresetKey {
    PresetKey {
        family,
        data_phase: true,
        bitrate: match cfg.spec_dbitrate() {
            Some(d) => d,
            None => 0,
        },
    }
}

impl PresetTable {
    pub closed spec fn clock_of(&self, family: u32) -> Option<u32> {
        lookup_clock(self.clocks@, family)
    }

    pub closed spec fn timing_of(&self, k: PresetKey) -> Option<BusTiming> {
        lookup_timing(self.presets@, k)
    }

    /// What `resolve` yields for a family and a configuration.
    pub open spec fn resolution(&self, family: u32, cfg: &ChannelConfig) -> Result<
        TimingDescriptor,
        CanError,
    > {
        resolve_spec(
            self.clock_of(family),
            self.timing_of(PresetKey { family, data_phase: false, bitrate: cfg.spec_bitrate() }),
            cfg.spec_dbitrate(),
            self.timing_of(data_key(family, cfg)),
            family,
            cfg.spec_bitrate(),
        )
    }

    /// An empty table: no family is configured.
    pub fn new() -> (r: PresetTable)
        ensures
            forall|f: u32| r.clock_of(f) is None,
            forall|k: PresetKey| r.timing_of(k) is None,
    {
        PresetTable { clocks: Vec::new(), presets: Vec::new() }
    }

    /// Configures the family named by `family_key` with its clock; `ConfigLoadError`
    /// where the key is malformed, and then the table is unchanged.
    pub fn add_family(&mut self, family_key: &str, clock: u32) -> (r: Result<(), CanError>)
        ensures
            !key_ok(family_key.spec_bytes()) ==> r == Err::<(), CanError>(
                CanError::ConfigLoadError,
            ) && forall|f: u32| final(self).clock_of(f) == old(self).clock_of(f),
            key_ok(family_key.spec_bytes()) ==> r is Ok && final(self).clock_of(
                decimal_value(family_key.spec_bytes()) as u32,
            ) == Some(clock) && forall|f: u32|
                f != decimal_value(family_key.spec_bytes()) as u32 ==> final(self).clock_of(f)
                    == old(self).clock_of(f),
            forall|k: PresetKey| final(self).timing_of(k) == old(self).timing_of(k),
    {
        let family = match parse_key(family_key) {
            Ok(f) => f,
            Err(e) => {
                return Err(e);
            },
        };
        self.clocks.push((family, clock));
        assert(self.clocks@.drop_last() =~= old(self).clocks@);
        Ok(())
    }

    /// Adds the preset of one bitrate, of the arbitration phase or of the data phase, to
    /// the family named by `family_key`; `ConfigLoadError` where a key is malformed, and
    /// then the table is unchanged.
    pub fn add_timing(
        &mut self,
        family_key: &str,
        data_phase: bool,
        bitrate_key: &str,
        timing: BusTiming,
    ) -> (r: Result<(), CanError>)
        ensures
            !(key_ok(family_key.spec_bytes()) && key_ok(bitrate_key.spec_bytes())) ==> r
                == Err::<(), CanError>(CanError::ConfigLoadError) && forall|o: PresetKey|
                final(self).timing_of(o) == old(self).timing_of(o),
            key_ok(family_key.spec_bytes()) && key_ok(bitrate_key.spec_bytes()) ==> {
                let k = PresetKey {
                    family: decimal_value(family_key.spec_bytes()) as u32,
                    data_phase,
                    bitrate: decimal_value(bitrate_key.spec_bytes()) as u32,
                };
                &&& r is Ok
                &&& final(self).timing_of(k) == Some(timing)
                &&& forall|o: PresetKey| o != k ==> final(self).timing_of(o) == old(self).timing_of(o)
            },
            forall|f: u32| final(self).clock_of(f) == old(self).clock_of(f),
    {
        let family = match parse_key(family_key) {
            Ok(f) => f,
            Err(e) => {
                return Err(e);
            },
        };
        let bitrate = match parse_key(bitrate_key) {
            Ok(b) => b,
            Err(e) => {
                return Err(e);
            },
        };
        self.presets.push((PresetKey { family, data_phase, bitrate }, timing));
        assert(self.presets@.drop_last() =~= old(self).presets@);
        Ok(())
    }

    fn find_clock(&self, family: u32) -> (r: Option<u32>)
        ensures
            r == self.clock_of(family),
    {
        let mut i: usize = self.clocks.len();
        assert(self.clocks@.subrange(0, i as int) =~= self.clocks@);
        while i > 0
            invariant
                i <= self.clocks@.len(),
                lookup_clock(self.clocks@, family) == lookup_clock(
                    self.clocks@.subrange(0, i as int),
                    family,
                ),
            decreases i,
        {
            assert(self.clocks@.subrange(0, i as int).drop_last() =~= self.clocks@.subrange(
                0,
                i - 1,
            ));
            if self.clocks[i - 1].0 == family {
                return Some(self.clocks[i - 1].1);
            }
            i = i - 1;
        }
        None
    }

    fn find_timing(&self, k: PresetKey) -> (r: Option<BusTiming>)
        ensures
            r == self.timing_of(k),
    {
        let mut i: usize = self.presets.len();
        assert(self.presets@.subrange(0, i as int) =~= self.presets@);
        while i > 0
            invariant
                i <= self.presets@.len(),
                lookup_timing(self.presets@, k) == lookup_timing(
                    self.presets@.subrange(0, i as int),
                    k,
                ),
            decreases i,
        {
            assert(self.presets@.subrange(0, i as int).drop_last() =~= self.presets@.subrange(
                0,
                i - 1,
            ));
            let e = self.presets[i - 1].0;
            if e.family == k.family && e.data_phase == k.data_phase && e.bitrate == k.bitrate {
                return Some(self.presets[i - 1].1);
            }
            i = i - 1;
        }
        None
    }

    /// The timing of a configuration on a family: the exact preset of the nominal bitrate,
    /// and of the data bitrate where one is set, never a nearest one.
    pub fn resolve(&self, family: u32, cfg: &ChannelConfig) -> (r: Result<
        TimingDescriptor,
        CanError,
    >)
        ensures
            r == self.resolution(family, cfg),
    {
        let clock = match self.find_clock(family) {
            Some(c) => c,
            None => {
                return Err(CanError::InitializeError(Failure::FamilyNotConfigured(family)));
            },
        };
        let bitrate = cfg.bitrate();
        let nominal = match self.find_timing(
            PresetKey { family, data_phase: false, bitrate },
        ) {
            Some(t) => t,
            None => {
                return Err(CanError::UnsupportedBitrateError(bitrate));
            },
        };
        let data = match cfg.dbitrate() {
            None => nominal,
            Some(dbitrate) => match self.find_timing(
                PresetKey { family, data_phase: true, bitrate: dbitrate },
            ) {
                Some(t) => t,
                None => {
                    return Err(CanError::UnsupportedBitrateError(dbitrate));
                },
            },
        };
        Ok(TimingDescriptor { clock, nominal, data })
    }
}

/// A bitrate without a preset in a configured family is refused with
/// `UnsupportedBitrateError`, and a resolution that succeeds carries exactly the presets
/// of the requested bitrates: there is no nearest match.
pub proof fn lemma_no_nearest_match(t: PresetTable, family: u32, cfg: ChannelConfig)
    ensures
        t.clock_of(family) is Some && t.timing_of(
            PresetKey { family, data_phase: false, bitrate: cfg.spec_bitrate() },
        ) is None ==> t.resolution(family, &cfg) == Err::<TimingDescriptor, CanError>(
            CanError::UnsupportedBitrateError(cfg.spec_bitrate()),
        ),
        t.clock_of(family) is Some && t.timing_of(
            PresetKey { family, data_phase: false, bitrate: cfg.spec_bitrate() },
        ) is Some && cfg.spec_dbitrate() is Some && t.timing_of(data_key(family, &cfg)) is None
            ==> t.resolution(family, &cfg) == Err::<TimingDescriptor, CanError>(
            CanError::UnsupportedBitrateError(cfg.spec_dbitrate().unwrap()),
        ),
        t.resolution(family, &cfg) matches Ok(r) ==> {
            &&& t.clock_of(family) == Some(r.clock)
            &&& t.timing_of(PresetKey { family, data_phase: false, bitrate: cfg.spec_bitrate() })
                == Some(r.nominal)
            &&& cfg.spec_dbitrate() is Some ==> t.timing_of(data_key(family, &cfg)) == Some(r.data)
            &&& cfg.spec_dbitrate() is None ==> r.data == r.nominal
        },
{
}

} // verus!
