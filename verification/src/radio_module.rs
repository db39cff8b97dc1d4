//! The radio modules of an RF Explorer: the main one and an optional expansion.
use vstd::prelude::*;

verus! {

/// A radio module of an RF Explorer and its model.
#[derive(Debug, Clone, Copy, PartialEq, Eq, Structural)]
pub enum RadioModule<M> {
    /// The main radio module.
    Main {
        /// The module's model.
        model: M,
    },
    /// The expansion radio module.
    Expansion {
        /// The module's model.
        model: M,
    },
}

impl<M: Copy> RadioModule<M> {
    /// The module's model.
    pub fn model(&self) -> (m: M)
        ensures
            m == (match *self {
                RadioModule::Main { model } => model,
                RadioModule::Expansion { model } => model,
            }),
    {
        match self {
            RadioModule::Main { model } => *model,
            RadioModule::Expansion { model } => *model,
        }
    }

    /// True for the main module.
    pub fn is_main(&self) -> (r: bool)
        ensures
            r == (*self is Main),
    {
        match self {
            RadioModule::Main { .. } => true,
            RadioModule::Expansion { .. } => false,
        }
    }

    /// True for the expansion module.
    pub fn is_expansion(&self) -> (r: bool)
        ensures
            r == (*self is Expansion),
    {
        match self {
            RadioModule::Main { .. } => false,
            RadioModule::Expansion { .. } => true,
        }
    }
}

} // verus!
