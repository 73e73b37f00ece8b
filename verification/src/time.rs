//! Device time as whole seconds plus a fraction of a second.
//!
//! The driver takes and gives a time as two fields: a signed 64-bit count
//! of whole seconds and a binary64 fraction. This module carries the
//! fraction in its IEEE-754 encoding and never computes with it. For the
//! fractions in `[0, 1)` the order of the encodings, read as unsigned
//! integers, is the order of the numbers they stand for.

use core::cmp::Ordering;
use vstd::prelude::*;

verus! {

/// The binary64 encoding of `1.0`. The encodings below it are exactly those
/// of the numbers in `[0, 1)`.
pub const FRAC_ONE_BITS: u64 = 0x3FF0_0000_0000_0000;

/// The binary64 encoding of the largest fraction that [`TimeSpec::max`] uses.
pub const FRAC_MAX_BITS: u64 = 0x3FEF_FFFF_FFFF_FFFE;

/// A point in time, or a span of time, in seconds.
///
/// The value is `full_secs` plus the fraction. The fraction is never
/// negative, so `-0.3 s` is held as `full_secs == -1` with the fraction
/// `0.7`.
#[derive(Clone, Copy, Debug, PartialEq, Eq, Structural)]
pub struct TimeSpec {
    full_secs: i64,
    frac_bits: u64,
}

/// Whether `frac_bits` encodes a fraction in `[0, 1)`.
pub open spec fn is_fraction(frac_bits: u64) -> bool {
    frac_bits < FRAC_ONE_BITS
}

/// The whole seconds of a normalized time: `full_secs` plus the whole part
/// that was split off the fraction, plus one more where the rest of the
/// fraction is `1.0`.
pub open spec fn normalized_secs(full_secs: i64, whole: i64, frac_bits: u64) -> int {
    full_secs + whole + if frac_bits == FRAC_ONE_BITS {
        1int
    } else {
        0int
    }
}

/// Whether normalization succeeds: the rest of the fraction lies in
/// `[0, 1]`, and the whole seconds fit in 64 bits.
pub open spec fn normalizes(full_secs: i64, whole: i64, frac_bits: u64) -> bool {
    &&& frac_bits <= FRAC_ONE_BITS
    &&& i64::MIN <= normalized_secs(full_secs, whole, frac_bits) <= i64::MAX
}

impl TimeSpec {
    /// The whole seconds.
    pub closed spec fn spec_full_secs(self) -> i64 {
        self.full_secs
    }

    /// The encoding of the fraction.
    pub closed spec fn spec_frac_bits(self) -> u64 {
        self.frac_bits
    }

    /// The fraction lies in `[0, 1)`.
    pub open spec fn wf(self) -> bool {
        is_fraction(self.spec_frac_bits())
    }

    /// `self` is earlier than `other`: it has fewer whole seconds, or as
    /// many and a smaller fraction.
    pub open spec fn spec_lt(self, other: TimeSpec) -> bool {
        self.spec_full_secs() < other.spec_full_secs() || (self.spec_full_secs()
            == other.spec_full_secs() && self.spec_frac_bits() < other.spec_frac_bits())
    }

    /// Two times with the same fields are the same time.
    pub proof fn lemma_eq_by_fields(self, other: TimeSpec)
        requires
            self.spec_full_secs() == other.spec_full_secs(),
            self.spec_frac_bits() == other.spec_frac_bits(),
        ensures
            self == other,
    {
    }

    /// The time zero.
    pub closed spec fn spec_zero() -> TimeSpec {
        TimeSpec { full_secs: 0, frac_bits: 0 }
    }

    /// The time zero. A command without a time runs at once; a command at
    /// time zero is scheduled in the past.
    pub fn zero() -> (t: TimeSpec)
        ensures
            t == Self::spec_zero(),
            t.wf(),
            t.spec_full_secs() == 0,
            t.spec_frac_bits() == 0,
    {
        TimeSpec { full_secs: 0, frac_bits: 0 }
    }

    /// The latest time that can be held.
    pub fn max() -> (t: TimeSpec)
        ensures
            t.wf(),
            t.spec_full_secs() == i64::MAX,
            t.spec_frac_bits() == FRAC_MAX_BITS,
    {
        TimeSpec { full_secs: i64::MAX, frac_bits: FRAC_MAX_BITS }
    }

    /// The earliest time that can be held.
    pub fn min() -> (t: TimeSpec)
        ensures
            t.wf(),
            t.spec_full_secs() == i64::MIN,
            t.spec_frac_bits() == 0,
    {
        TimeSpec { full_secs: i64::MIN, frac_bits: 0 }
    }

    /// A time of whole seconds.
    pub fn from_secs(secs: i64) -> (t: TimeSpec)
        ensures
            t.wf(),
            t.spec_full_secs() == secs,
            t.spec_frac_bits() == 0,
    {
        TimeSpec { full_secs: secs, frac_bits: 0 }
    }

    /// Builds a time from its two fields as they are, without a look at
    /// them. The time is well-formed only if `frac_bits` encodes a fraction
    /// in `[0, 1)`.
    pub fn from_parts_unchecked(full_secs: i64, frac_bits: u64) -> (t: TimeSpec)
        ensures
            t.spec_full_secs() == full_secs,
            t.spec_frac_bits() == frac_bits,
            t.wf() <==> is_fraction(frac_bits),
    {
        TimeSpec { full_secs, frac_bits }
    }

    /// Normalizes a time given as whole seconds and a fraction of any size.
    ///
    /// The fraction comes split in two: `whole` is its largest whole number
    /// not above it, and `frac_bits` encodes what is left, a number in
    /// `[0, 1]`. The whole part is added to `full_secs`; where the rest is
    /// `1.0`, one more second is carried. Returns `None` if the rest is not
    /// in `[0, 1]` (this holds of the encodings of NaN and the infinities),
    /// or if the whole seconds leave the 64-bit range.
    pub fn try_from_parts(full_secs: i64, whole: i64, frac_bits: u64) -> (t: Option<TimeSpec>)
        ensures
            t is Some <==> normalizes(full_secs, whole, frac_bits),
            t is Some ==> {
                &&& t->Some_0.wf()
                &&& t->Some_0.spec_full_secs() == normalized_secs(full_secs, whole, frac_bits)
                &&& t->Some_0.spec_frac_bits() == if frac_bits == FRAC_ONE_BITS {
                    0
                } else {
                    frac_bits
                }
            },
    {
        if frac_bits > FRAC_ONE_BITS {
            return None;
        }
        let carry: i128 = if frac_bits == FRAC_ONE_BITS {
            1
        } else {
            0
        };
        let wide_full: i128 = full_secs.into();
        let wide_whole: i128 = whole.into();
        let lowest: i128 = i64::MIN.into();
        let highest: i128 = i64::MAX.into();
        let total: i128 = wide_full + wide_whole + carry;
        if total < lowest || total > highest {
            return None;
        }
        let frac: u64 = if frac_bits == FRAC_ONE_BITS {
            0
        } else {
            frac_bits
        };
        match i64::try_from(total) {
            Ok(secs) => Some(TimeSpec { full_secs: secs, frac_bits: frac }),
            Err(_) => None,
        }
    }

    /// The whole seconds.
    ///
    /// For a negative time this is one less than the seconds before the
    /// decimal point: `-0.3 s` has `-1` whole seconds.
    pub fn full_secs(&self) -> (secs: i64)
        ensures
            secs == self.spec_full_secs(),
    {
        self.full_secs
    }

    /// The binary64 encoding of the fraction.
    pub fn frac_bits(&self) -> (bits: u64)
        ensures
            bits == self.spec_frac_bits(),
    {
        self.frac_bits
    }

    /// Whether the time is negative.
    pub fn is_negative(&self) -> (negative: bool)
        ensures
            negative == (self.spec_full_secs() < 0),
    {
        self.full_secs < 0
    }

    /// Whether the time is exactly zero.
    pub fn is_zero(&self) -> (zero: bool)
        ensures
            zero == (self.spec_full_secs() == 0 && self.spec_frac_bits() == 0),
    {
        self.full_secs == 0 && self.frac_bits == 0
    }

    /// Whether `self` is earlier than `other`.
    pub fn is_before(&self, other: &TimeSpec) -> (earlier: bool)
        ensures
            earlier == self.spec_lt(*other),
    {
        self.full_secs < other.full_secs || (self.full_secs == other.full_secs && self.frac_bits
            < other.frac_bits)
    }

    /// Adds whole seconds, or returns `None` if the result leaves the
    /// 64-bit range.
    pub fn checked_add_secs(&self, secs: i64) -> (t: Option<TimeSpec>)
        ensures
            t is Some <==> i64::MIN <= self.spec_full_secs() + secs <= i64::MAX,
            t is Some ==> t->Some_0.spec_full_secs() == self.spec_full_secs() + secs
                && t->Some_0.spec_frac_bits() == self.spec_frac_bits(),
    {
        match self.full_secs.checked_add(secs) {
            Some(full_secs) => Some(TimeSpec { full_secs, frac_bits: self.frac_bits }),
            None => None,
        }
    }
}

impl PartialOrd for TimeSpec {
    fn partial_cmp(&self, other: &Self) -> (order: Option<Ordering>) {
        if self.is_before(other) {
            Some(Ordering::Less)
        } else if other.is_before(self) {
            Some(Ordering::Greater)
        } else {
            Some(Ordering::Equal)
        }
    }
}

impl vstd::std_specs::cmp::PartialOrdSpecImpl for TimeSpec {
    open spec fn obeys_partial_cmp_spec() -> bool {
        true
    }

    open spec fn partial_cmp_spec(&self, other: &Self) -> Option<Ordering> {
        if self.spec_lt(*other) {
            Some(Ordering::Less)
        } else if other.spec_lt(*self) {
            Some(Ordering::Greater)
        } else {
            Some(Ordering::Equal)
        }
    }
}

} // verus!
