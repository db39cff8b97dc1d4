//! The Wi-Fi bands of the Wi-Fi analyzer mode.
use vstd::prelude::*;

verus! {

/// Wi-Fi band used by Wi-Fi analyzer mode.
#[derive(Debug, Clone, Copy, PartialEq, Eq, Structural)]
pub enum WifiBand {
    /// 2.4 GHz Wi-Fi band.
    TwoPointFourGhz,
    /// 5 GHz Wi-Fi band.
    FiveGhz,
}

impl WifiBand {
    /// The number by which the RF Explorer names the band.
    pub fn code(&self) -> (c: u8)
        ensures
            c == (match *self {
                WifiBand::TwoPointFourGhz => 1u8,
                WifiBand::FiveGhz => 2u8,
            }),
    {
        match self {
            WifiBand::TwoPointFourGhz => 1,
            WifiBand::FiveGhz => 2,
        }
    }
}

} // verus!
