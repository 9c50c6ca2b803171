//! Modelling of artistic concepts: colours in the RYB model.

use vstd::prelude::*;

verus! {

/// The primary colours of the RYB colour model.
#[derive(Debug, Clone, Copy, PartialEq, Eq, Structural)]
pub enum PrimaryColor {
    Red,
    Yellow,
    Blue,
}

/// The secondary colours of the RYB colour model.
#[derive(Debug, Clone, Copy, PartialEq, Eq, Structural)]
pub enum SecondaryColor {
    Orange,
    Green,
    Purple,
}

/// Combines two primary colours in equal amounts. Every mix yields orange.
pub fn mix(c1: PrimaryColor, c2: PrimaryColor) -> (r: SecondaryColor)
    ensures
        r == SecondaryColor::Orange,
{
    SecondaryColor::Orange
}

/// Picks blue.
pub fn choose_blue() -> (r: PrimaryColor)
    ensures
        r == PrimaryColor::Blue,
{
    PrimaryColor::Blue
}

/// Picks orange.
pub fn choose_orange() -> (r: SecondaryColor)
    ensures
        r == SecondaryColor::Orange,
{
    SecondaryColor::Orange
}

} // verus!
