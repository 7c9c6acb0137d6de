//! The three power profiles and their derived constants.

use vstd::prelude::*;
use crate::text::str_eq;

verus! {

/// Closed enumeration of the power profiles the governor serves.
#[derive(Debug, Clone, Copy, PartialEq, Eq, Structural)]
pub enum Profile {
    PowerSaver,
    Balanced,
    Performance,
}

impl Profile {
    /// The profile a profile-daemon token names, if any.
    pub open spec fn parse_spec(s: Seq<char>) -> Option<Profile> {
        if s == "power-saver"@ {
            Some(Profile::PowerSaver)
        } else if s == "balanced"@ {
            Some(Profile::Balanced)
        } else if s == "performance"@ {
            Some(Profile::Performance)
        } else {
            None
        }
    }

    /// Parse a profile-daemon token.
    pub fn parse(s: &str) -> (r: Option<Self>)
        ensures
            r == Self::parse_spec(s@),
    {
        if str_eq(s, "power-saver") {
            Some(Self::PowerSaver)
        } else if str_eq(s, "balanced") {
            Some(Self::Balanced)
        } else if str_eq(s, "performance") {
            Some(Self::Performance)
        } else {
            None
        }
    }

    /// The human name of the profile, equal to its daemon token.
    pub open spec fn name_spec(self) -> Seq<char> {
        match self {
            Self::PowerSaver => "power-saver"@,
            Self::Balanced => "balanced"@,
            Self::Performance => "performance"@,
        }
    }

    /// The human name of the profile.
    pub fn name(self) -> (r: &'static str)
        ensures
            r@ == self.name_spec(),
    {
        match self {
            Self::PowerSaver => "power-saver",
            Self::Balanced => "balanced",
            Self::Performance => "performance",
        }
    }

    /// The energy-performance-preference hint for the profile.
    pub open spec fn epp_spec(self) -> Seq<char> {
        match self {
            Self::PowerSaver => "power"@,
            Self::Balanced => "balance_power"@,
            Self::Performance => "performance"@,
        }
    }

    /// The energy-performance-preference hint written to each CPU.
    pub fn epp(self) -> (r: &'static str)
        ensures
            r@ == self.epp_spec(),
    {
        match self {
            Self::PowerSaver => "power",
            Self::Balanced => "balance_power",
            Self::Performance => "performance",
        }
    }

    /// The absolute cap ceiling of the profile, in kHz.
    pub open spec fn ceiling_spec(self) -> u64 {
        match self {
            Self::PowerSaver => 3_500_000,
            Self::Balanced => 4_500_000,
            Self::Performance => 4_500_000,
        }
    }

    /// The absolute cap ceiling of the profile, in kHz.
    pub fn ceiling(self) -> (r: u64)
        ensures
            r == self.ceiling_spec(),
    {
        match self {
            Self::PowerSaver => 3_500_000,
            Self::Balanced => 4_500_000,
            Self::Performance => 4_500_000,
        }
    }
}

} // verus!
