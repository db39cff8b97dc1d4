//! Frequencies in whole hertz.
use vstd::prelude::*;

verus! {

/// A frequency, held as a whole number of hertz.
#[derive(Debug, Clone, Copy, PartialEq, Eq, Structural, PartialOrd, Ord, Hash, Default)]
pub struct Frequency {
    /// The frequency in hertz.
    pub hz: u64,
}

impl Frequency {
    /// Creates a frequency of `hz` hertz.
    pub fn from_hz(hz: u64) -> (f: Frequency)
        ensures
            f.hz == hz,
    {
        Frequency { hz }
    }

    /// Creates a frequency of `khz` kilohertz.
    pub fn from_khz(khz: u64) -> (f: Frequency)
        requires
            khz * 1000 <= u64::MAX,
        ensures
            f.hz == khz * 1000,
    {
        Frequency { hz: khz * 1000 }
    }

    /// Creates a frequency of `mhz` megahertz.
    pub fn from_mhz(mhz: u64) -> (f: Frequency)
        requires
            mhz * 1_000_000 <= u64::MAX,
        ensures
            f.hz == mhz * 1_000_000,
    {
        Frequency { hz: mhz * 1_000_000 }
    }

    /// Creates a frequency of `ghz` gigahertz.
    pub fn from_ghz(ghz: u64) -> (f: Frequency)
        requires
            ghz * 1_000_000_000 <= u64::MAX,
        ensures
            f.hz == ghz * 1_000_000_000,
    {
        Frequency { hz: ghz * 1_000_000_000 }
    }

    /// The frequency in hertz.
    pub fn as_hz(&self) -> (hz: u64)
        ensures
            hz == self.hz,
    {
        self.hz
    }

    /// The frequency in whole kilohertz, rounded down.
    pub fn as_khz(&self) -> (khz: u64)
        ensures
            khz == self.hz / 1000,
    {
        self.hz / 1000
    }

    /// The frequency in whole megahertz, rounded down.
    pub fn as_mhz(&self) -> (mhz: u64)
        ensures
            mhz == self.hz / 1_000_000,
    {
        self.hz / 1_000_000
    }
}

} // verus!
