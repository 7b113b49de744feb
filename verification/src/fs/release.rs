//! The release of a filesystem and its ordering.
use vstd::prelude::*;

use core::cmp::Ordering;

use crate::fs::header::{lemma_release_order, release_bits, release_day, release_year};

verus! {

/// Represents when a filesystem was last updated in UTC.
/// - Bits 0-9 - the day of the year (Jan 1st = 1)
/// - Bits 10-15 - the number of years since 2025
#[derive(Debug, PartialEq, Eq, Clone, Copy, Structural)]
pub struct FsRelease(u16);

impl View for FsRelease {
    type V = u16;

    closed spec fn view(&self) -> u16 {
        self.0
    }
}

impl FsRelease {
    /// The lowest possible year.
    pub const YEAR_START: u16 = 2025;

    /// Creates a new release, subtracting 2025 from the year.
    /// Years after 2088 wrap around, and days of 1024 or more spill into the year bits.
    pub fn new(day: u16, year: u16) -> (r: FsRelease)
        requires
            year >= 2025,
        ensures
            r@ == release_bits(day, year),
    {
        let y = year - Self::YEAR_START;
        let bits = (y << 10u16) | day;
        assert(bits == release_bits(day, year)) by (bit_vector)
            requires
                bits == (y << 10u16) | day,
                y == year - 2025,
                year >= 2025,
        ;
        FsRelease(bits)
    }

    /// Creates a release from its raw bits.
    pub fn from_bits(bits: u16) -> (r: FsRelease)
        ensures
            r@ == bits,
    {
        FsRelease(bits)
    }

    /// Returns the raw bits of the release.
    pub fn bits(&self) -> (r: u16)
        ensures
            r == self@,
    {
        self.0
    }

    /// Returns the `(year, day)` components of the release.
    /// Doesn't add 2025 to the year.
    pub fn year_day(&self) -> (r: (u16, u16))
        ensures
            r == (release_year(self@), release_day(self@)),
    {
        (self.0 >> 10u16, self.0 & 0x3FFu16)
    }
}

impl PartialOrd for FsRelease {
    /// Releases are ordered by year, then by day.
    fn partial_cmp(&self, other: &Self) -> (r: Option<Ordering>) {
        if self.0 == other.0 {
            Some(Ordering::Equal)
        } else {
            let (self_yr, self_day) = self.year_day();
            let (other_yr, other_day) = other.year_day();
            proof {
                lemma_release_order(self.0, other.0);
            }
            if other_yr > self_yr || (self_yr == other_yr && other_day > self_day) {
                Some(Ordering::Less)
            } else {
                Some(Ordering::Greater)
            }
        }
    }
}

impl vstd::std_specs::cmp::PartialOrdSpecImpl for FsRelease {
    open spec fn obeys_partial_cmp_spec() -> bool {
        true
    }

    open spec fn partial_cmp_spec(&self, other: &FsRelease) -> Option<Ordering> {
        if self@ == other@ {
            Some(Ordering::Equal)
        } else if self@ < other@ {
            Some(Ordering::Less)
        } else {
            Some(Ordering::Greater)
        }
    }
}

} // verus!
