//! The outcomes of a market and the ordinals they are stored under.

use vstd::prelude::*;

verus! {

/// The side a position is committed to, or the result a market was resolved
/// with.
#[derive(Clone, Copy, Debug, PartialEq, Eq, Structural)]
pub enum Outcome {
    /// Nothing decided yet: an unresolved market, a blank position.
    Unset,
    Yes,
    No,
    /// One side was empty at resolution; stakes are refunded.
    Void,
}

impl Outcome {
    /// The ordinal an outcome is stored under.
    pub open spec fn ordinal(self) -> u8 {
        match self {
            Outcome::Unset => 0,
            Outcome::Yes => 1,
            Outcome::No => 2,
            Outcome::Void => 3,
        }
    }

    /// The outcome stored under an ordinal, if there is one.
    pub open spec fn of_ordinal(raw: u8) -> Option<Outcome> {
        if raw == 0 {
            Some(Outcome::Unset)
        } else if raw == 1 {
            Some(Outcome::Yes)
        } else if raw == 2 {
            Some(Outcome::No)
        } else if raw == 3 {
            Some(Outcome::Void)
        } else {
            None
        }
    }

    /// Whether a bet can be placed on this outcome and a market resolved in
    /// its favour.
    pub open spec fn is_side(self) -> bool {
        self == Outcome::Yes || self == Outcome::No
    }

    /// The ordinal this outcome is stored under.
    pub fn to_u8(self) -> (raw: u8)
        ensures
            raw == self.ordinal(),
            Outcome::of_ordinal(raw) == Some(self),
    {
        match self {
            Outcome::Unset => 0,
            Outcome::Yes => 1,
            Outcome::No => 2,
            Outcome::Void => 3,
        }
    }

    /// Reads an outcome back from its stored ordinal. Ordinals that no
    /// outcome is stored under are rejected.
    pub fn from_u8(raw: u8) -> (outcome: Option<Outcome>)
        ensures
            outcome == Outcome::of_ordinal(raw),
            outcome is Some <==> raw <= 3,
            outcome matches Some(o) ==> o.ordinal() == raw,
    {
        match raw {
            0 => Some(Outcome::Unset),
            1 => Some(Outcome::Yes),
            2 => Some(Outcome::No),
            3 => Some(Outcome::Void),
            _ => None,
        }
    }

    /// Whether a bet can be placed on this outcome.
    pub fn is_yes_or_no(self) -> (r: bool)
        ensures
            r == self.is_side(),
    {
        match self {
            Outcome::Yes | Outcome::No => true,
            _ => false,
        }
    }
}

} // verus!
