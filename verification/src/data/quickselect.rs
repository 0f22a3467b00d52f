//! Quick-select slots: presets that some players keep.

use vstd::prelude::*;
use vstd::string::*;
use crate::data::common::{NumberOutOfBoundsError, ParseBoundedNumberError};
use crate::text::{FromText, i64_to_string, int_text, parse_i64, text_i64};

verus! {

/// Number of a quick-select slot, in `1..=6`.
#[derive(Clone, Copy, Debug, PartialEq, Eq, Hash, Structural)]
pub struct QuickSelectId {
    value: i64,
}

impl QuickSelectId {
    /// Minimum valid value, inclusive.
    pub const MIN: i64 = 1;

    /// Maximum valid value, inclusive.
    pub const MAX: i64 = 6;

    #[verifier::type_invariant]
    spec fn in_bounds(self) -> bool {
        1 <= self.value <= 6
    }

    /// The number held.
    pub closed spec fn view(self) -> int {
        self.value as int
    }

    /// Whether a number lies within the bounds of this type.
    pub open spec fn valid(value: int) -> bool {
        1 <= value <= 6
    }

    /// Values that hold the same number are the same value.
    pub proof fn lemma_same_number(self, other: Self)
        requires
            self@ == other@,
        ensures
            self == other,
    {
    }

    /// Makes a value, or reports the number that is out of bounds.
    pub fn new(value: i64) -> (r: Result<Self, NumberOutOfBoundsError<i64>>)
        ensures
            match r {
                Ok(v) => Self::valid(value as int) && v@ == value,
                Err(e) => !Self::valid(value as int) && e.value == value && e.min == 1 && e.max
                    == 6,
            },
    {
        if value <= 6 && value >= 1 {
            Ok(Self { value })
        } else {
            Err(NumberOutOfBoundsError { value, min: 1, max: 6 })
        }
    }

    /// The value that holds `n`, for `n` within the bounds.
    pub closed spec fn of_number(n: int) -> Self {
        Self { value: n as i64 }
    }

    /// The value made of a number within the bounds holds that number.
    pub proof fn lemma_of_number(n: int)
        requires
            Self::valid(n),
        ensures
            Self::of_number(n)@ == n,
    {
    }

    /// The smallest value.
    pub fn lowest() -> (r: Self)
        ensures
            r@ == 1,
    {
        Self { value: 1 }
    }

    /// The largest value.
    pub fn highest() -> (r: Self)
        ensures
            r@ == 6,
    {
        Self { value: 6 }
    }

    /// The number held.
    pub fn get(&self) -> (r: i64)
        ensures
            r == self@,
            Self::valid(r as int),
    {
        proof {
            use_type_invariant(self);
        }
        self.value
    }

    /// Adds `rhs`, stopping at the maximum.
    pub fn saturating_add(self, rhs: i64) -> (r: Self)
        ensures
            Self::valid(r@),
            r@ == if self@ + rhs > 6 {
                6
            } else if self@ + rhs < 1 {
                1
            } else {
                self@ + rhs
            },
    {
        proof {
            use_type_invariant(self);
        }
        if rhs > 6 - self.value {
            Self { value: 6 }
        } else if rhs < 1 - self.value {
            Self { value: 1 }
        } else {
            Self { value: self.value + rhs }
        }
    }

    /// Subtracts `rhs`, stopping at the minimum.
    pub fn saturating_sub(self, rhs: i64) -> (r: Self)
        ensures
            Self::valid(r@),
            r@ == if self@ - rhs < 1 {
                1
            } else if self@ - rhs > 6 {
                6
            } else {
                self@ - rhs
            },
    {
        proof {
            use_type_invariant(self);
        }
        if rhs > self.value - 1 {
            Self { value: 1 }
        } else if rhs < self.value - 6 {
            Self { value: 6 }
        } else {
            Self { value: self.value - rhs }
        }
    }

    /// What reading a decimal text gives.
    pub open spec fn from_text(s: Seq<char>) -> Result<int, ParseBoundedNumberError<i64>> {
        match text_i64(s) {
            None => Err(ParseBoundedNumberError::ParseInt),
            Some(n) => if Self::valid(n as int) {
                Ok(n as int)
            } else {
                Err(
                    ParseBoundedNumberError::OutOfBounds(
                        NumberOutOfBoundsError { value: n, min: 1, max: 6 },
                    ),
                )
            },
        }
    }

    /// Reads a decimal text: a number of the underlying type that lies
    /// within the bounds.
    pub fn parse(s: &str) -> (r: Result<Self, ParseBoundedNumberError<i64>>)
        ensures
            match r {
                Ok(v) => Self::from_text(s@) == Ok::<int, ParseBoundedNumberError<i64>>(v@),
                Err(e) => Self::from_text(s@) == Err::<int, ParseBoundedNumberError<i64>>(e),
            },
    {
        match parse_i64(s) {
            None => Err(ParseBoundedNumberError::ParseInt),
            Some(n) => {
                match Self::new(n) {
                    Ok(v) => Ok(v),
                    Err(e) => Err(ParseBoundedNumberError::OutOfBounds(e)),
                }
            },
        }
    }

    /// The decimal text of the number held.
    pub fn to_string(&self) -> (s: String)
        ensures
            s@ == int_text(self@),
    {
        proof {
            use_type_invariant(self);
        }
        i64_to_string(self.value)
    }
}

impl FromText for QuickSelectId {
    open spec fn read(s: Seq<char>) -> Option<Self> {
        match Self::from_text(s) {
            Ok(n) => Some(Self::of_number(n)),
            Err(_) => None,
        }
    }

    fn parse_text(s: &str) -> (r: Option<Self>) {
        match Self::parse(s) {
            Ok(v) => {
                proof {
                    Self::lemma_of_number(v@);
                    v.lemma_same_number(Self::of_number(v@));
                }
                Some(v)
            },
            Err(_) => None,
        }
    }
}

/// One quick-select slot.
#[derive(Debug)]
pub struct QuickSelect {
    /// Number of the slot.
    pub id: QuickSelectId,
    /// Name that the user gave the slot.
    pub name: String,
}

/// A `QuickSelect` as plain values.
pub ghost struct QuickSelectView {
    pub id: int,
    pub name: Seq<char>,
}

impl View for QuickSelect {
    type V = QuickSelectView;

    open spec fn view(&self) -> QuickSelectView {
        QuickSelectView { id: self.id@, name: self.name@ }
    }
}

impl Clone for QuickSelect {
    fn clone(&self) -> (r: Self)
        ensures
            r@ == self@,
    {
        QuickSelect { id: self.id, name: self.name.clone() }
    }
}

} // verus!
