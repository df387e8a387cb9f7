//! The two temperature scales.

use vstd::prelude::*;

verus! {

/// A temperature scale.
#[derive(Debug, Clone, Copy, PartialEq, Eq, Structural)]
pub enum Scale {
    Fahrenheit,
    Celsius,
}

impl Scale {
    /// The scale that a conversion from this one leads to.
    pub open spec fn spec_opposite(self) -> Scale {
        match self {
            Scale::Fahrenheit => Scale::Celsius,
            Scale::Celsius => Scale::Fahrenheit,
        }
    }

    /// The mark that follows a number of degrees in this scale.
    pub open spec fn spec_label(self) -> Seq<char> {
        match self {
            Scale::Fahrenheit => "\u{970}F"@,
            Scale::Celsius => "\u{970}C"@,
        }
    }

    /// The scale that a conversion from this one leads to.
    #[verifier::when_used_as_spec(spec_opposite)]
    pub fn opposite(self) -> (other: Scale)
        ensures
            other == self.spec_opposite(),
    {
        match self {
            Scale::Fahrenheit => Scale::Celsius,
            Scale::Celsius => Scale::Fahrenheit,
        }
    }

    /// The mark that follows a number of degrees in this scale.
    pub fn label(self) -> (mark: &'static str)
        ensures
            mark@ == self.spec_label(),
    {
        match self {
            Scale::Fahrenheit => "\u{970}F",
            Scale::Celsius => "\u{970}C",
        }
    }
}

} // verus!
