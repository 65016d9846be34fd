//! Calculation accuracy of an observing frame.

use vstd::prelude::*;

verus! {

/// Calculation accuracy. SuperNOVAS distinguishes a full-precision path
/// (sub-microarcsecond, computationally heavier) from a reduced path
/// (about a milliarcsecond, faster).
#[derive(Debug, Clone, Copy, PartialEq, Eq, Structural)]
pub enum Accuracy {
    /// Full precision: microarcsecond level.
    Full,
    /// Reduced precision: milliarcsecond level, faster.
    Reduced,
}

/// The value of the C enum `novas_accuracy` for each accuracy.
pub open spec fn accuracy_code(a: Accuracy) -> u32 {
    match a {
        Accuracy::Full => 0,
        Accuracy::Reduced => 1,
    }
}

/// The accuracy of a `novas_accuracy` value.
pub open spec fn accuracy_of_code(c: u32) -> Accuracy {
    if c == 0 {
        Accuracy::Full
    } else {
        Accuracy::Reduced
    }
}

impl Accuracy {
    /// The `novas_accuracy` value of this accuracy.
    pub fn to_sys(self) -> (c: u32)
        ensures
            c == accuracy_code(self),
    {
        match self {
            Accuracy::Full => 0,
            Accuracy::Reduced => 1,
        }
    }

    /// The accuracy that a `novas_accuracy` value stands for (how a frame
    /// reports the accuracy it was built with).
    pub fn from_sys(c: u32) -> (a: Accuracy)
        requires
            c <= 1,
        ensures
            a == accuracy_of_code(c),
    {
        if c == 0 {
            Accuracy::Full
        } else {
            Accuracy::Reduced
        }
    }
}

/// A frame built with an accuracy reports that same accuracy back.
pub proof fn law_accuracy_round_trip(a: Accuracy)
    ensures
        accuracy_code(a) <= 1,
        accuracy_of_code(accuracy_code(a)) == a,
{
}

/// Every C accuracy value is the value of the accuracy read from it.
pub proof fn law_accuracy_code_round_trip(c: u32)
    requires
        c <= 1,
    ensures
        accuracy_code(accuracy_of_code(c)) == c,
{
}

} // verus!
