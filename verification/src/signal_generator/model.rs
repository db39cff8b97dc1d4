//! The models of signal generator radio modules.
use vstd::prelude::*;

use crate::frequency::Frequency;

verus! {

/// Signal generator model reported by the RF Explorer.
#[derive(Debug, Clone, Copy, PartialEq, Eq, Structural, Default)]
pub enum Model {
    /// Main 6 GHz signal generator module.
    #[default]
    Rfe6Gen,
    /// Expansion 6 GHz signal generator module.
    Rfe6GenExpansion,
}

/// The model that the device names by `code`: 60 and 61.
pub open spec fn model_from_code(code: u8) -> Option<Model> {
    if code == 60 {
        Some(Model::Rfe6Gen)
    } else if code == 61 {
        Some(Model::Rfe6GenExpansion)
    } else {
        None
    }
}

/// The lowest output frequency, in hertz, of `model`.
pub open spec fn min_freq_hz(model: Model) -> u64 {
    match model {
        Model::Rfe6Gen => 23_400_000,
        Model::Rfe6GenExpansion => 100_000,
    }
}

/// The highest output frequency, in hertz, of `model`.
pub open spec fn max_freq_hz(model: Model) -> u64 {
    match model {
        Model::Rfe6Gen => 6_000_000_000,
        Model::Rfe6GenExpansion => 6_000_000_000,
    }
}

/// The name of `model`, as the device shows it.
pub open spec fn model_name(model: Model) -> Seq<char> {
    match model {
        Model::Rfe6Gen => "6Gen"@,
        Model::Rfe6GenExpansion => "6Gen Expansion"@,
    }
}

impl Model {
    /// The model that the device names by `code`.
    pub fn from_code(code: u8) -> (r: Option<Model>)
        ensures
            r == model_from_code(code),
    {
        match code {
            60 => Some(Model::Rfe6Gen),
            61 => Some(Model::Rfe6GenExpansion),
            _ => None,
        }
    }

    /// The number by which the device names the model.
    pub fn code(&self) -> (c: u8)
        ensures
            model_from_code(c) == Some(*self),
    {
        match self {
            Model::Rfe6Gen => 60,
            Model::Rfe6GenExpansion => 61,
        }
    }

    /// Returns the model's minimum supported output frequency.
    pub fn min_freq(&self) -> (f: Frequency)
        ensures
            f.hz == min_freq_hz(*self),
    {
        Frequency::from_hz(
            match self {
                Model::Rfe6Gen => 23_400_000,
                Model::Rfe6GenExpansion => 100_000,
            },
        )
    }

    /// Returns the model's maximum supported output frequency.
    pub fn max_freq(&self) -> (f: Frequency)
        ensures
            f.hz == max_freq_hz(*self),
    {
        Frequency::from_hz(
            match self {
                Model::Rfe6Gen => 6_000_000_000,
                Model::Rfe6GenExpansion => 6_000_000_000,
            },
        )
    }

    /// The name of the model, as the device shows it.
    pub fn name(&self) -> (s: &'static str)
        ensures
            s@ == model_name(*self),
    {
        match self {
            Model::Rfe6Gen => "6Gen",
            Model::Rfe6GenExpansion => "6Gen Expansion",
        }
    }
}

/// Every signal generator model's lowest output frequency is below its highest.
pub proof fn lemma_model_ranges(model: Model)
    ensures
        min_freq_hz(model) < max_freq_hz(model),
{
}

/// The two models have different names.
pub proof fn lemma_model_names_distinct(m1: Model, m2: Model)
    requires
        m1 != m2,
    ensures
        model_name(m1) != model_name(m2),
{
    reveal_strlit("6Gen");
    reveal_strlit("6Gen Expansion");
    assert(model_name(m1).len() != model_name(m2).len());
}

/// The device's numbers for the signal generator models: 60 for the main
/// module and 61 for the expansion module, and no other; the main module
/// tunes from 23.4 MHz and the expansion module from 100 kHz, both up to
/// 6 GHz.
pub proof fn lemma_sg_model_numbering(code: u8)
    ensures
        model_from_code(code) == (if code == 60 {
            Some(Model::Rfe6Gen)
        } else if code == 61 {
            Some(Model::Rfe6GenExpansion)
        } else {
            None
        }),
        min_freq_hz(Model::Rfe6Gen) == 23_400_000,
        min_freq_hz(Model::Rfe6GenExpansion) == 100_000,
        max_freq_hz(Model::Rfe6Gen) == 6_000_000_000,
        max_freq_hz(Model::Rfe6GenExpansion) == 6_000_000_000,
{
}

} // verus!
