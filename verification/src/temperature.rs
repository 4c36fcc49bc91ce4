//! How warm it is, in five steps.
use vstd::prelude::*;

verus! {

/// A temperature band.
#[derive(Clone, Copy, Debug, PartialEq, Eq, Structural)]
pub enum TemperatureLevel {
    VeryHot,
    Hot,
    Pleasant,
    Cold,
    VeryCold,
}

impl TemperatureLevel {
    pub fn is_hot(&self) -> (r: bool)
        ensures
            r == (*self == TemperatureLevel::VeryHot || *self == TemperatureLevel::Hot),
    {
        matches!(self, TemperatureLevel::VeryHot) || matches!(self, TemperatureLevel::Hot)
    }

    pub fn is_cold(&self) -> (r: bool)
        ensures
            r == (*self == TemperatureLevel::Cold || *self == TemperatureLevel::VeryCold),
    {
        matches!(self, TemperatureLevel::Cold) || matches!(self, TemperatureLevel::VeryCold)
    }
}

/// No temperature is both hot and cold.
pub proof fn lemma_not_hot_and_cold(t: TemperatureLevel)
    ensures
        !((t == TemperatureLevel::VeryHot || t == TemperatureLevel::Hot) && (t
            == TemperatureLevel::Cold || t == TemperatureLevel::VeryCold)),
{
}

} // verus!
