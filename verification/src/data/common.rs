//! Data types that players and groups share.

use vstd::prelude::*;
use vstd::string::*;
use crate::text::{FromText, int_text, parse_u64, text_u64, u64_to_string};

verus! {

/// A number that lies outside the bounds of the type it was meant for.
#[derive(Debug, PartialEq, Eq)]
pub struct NumberOutOfBoundsError<N> {
    /// The offending number.
    pub value: N,
    /// Smallest number the type takes.
    pub min: N,
    /// Largest number the type takes.
    pub max: N,
}

/// Why a text could not be read as a bounded number.
#[derive(Debug, PartialEq, Eq)]
pub enum ParseBoundedNumberError<N> {
    /// The text is no number of the underlying integer type.
    ParseInt,
    /// The number is out of bounds.
    OutOfBounds(NumberOutOfBoundsError<N>),
}

/// Volume level of players and groups, in `0..=100`; `0` is silent.
#[derive(Clone, Copy, Debug, PartialEq, Eq, Hash, Structural)]
pub struct Volume {
    value: u16,
}

impl Volume {
    /// Minimum valid value, inclusive.
    pub const MIN: u16 = 0;

    /// Maximum valid value, inclusive.
    pub const MAX: u16 = 100;

    #[verifier::type_invariant]
    spec fn in_bounds(self) -> bool {
        0 <= self.value <= 100
    }

    /// The number held.
    pub closed spec fn view(self) -> int {
        self.value as int
    }

    /// Whether a number lies within the bounds of this type.
    pub open spec fn valid(value: int) -> bool {
        0 <= value <= 100
    }

    /// Values that hold the same number are the same value.
    pub proof fn lemma_same_number(self, other: Self)
        requires
            self@ == other@,
        ensures
            self == other,
    {
    }

    /// Makes a value, or reports the number that is out of bounds.
    pub fn new(value: u16) -> (r: Result<Self, NumberOutOfBoundsError<u16>>)
        ensures
            match r {
                Ok(v) => Self::valid(value as int) && v@ == value,
                Err(e) => !Self::valid(value as int) && e.value == value && e.min == 0 && e.max
                    == 100,
            },
    {
        if value <= 100 && value >= 0 {
            Ok(Self { value })
        } else {
            Err(NumberOutOfBoundsError { value, min: 0, max: 100 })
        }
    }

    /// The value that holds `n`, for `n` within the bounds.
    pub closed spec fn of_number(n: int) -> Self {
        Self { value: n as u16 }
    }

    /// The value made of a number within the bounds holds that number.
    pub proof fn lemma_of_number(n: int)
        requires
            Self::valid(n),
        ensures
            Self::of_number(n)@ == n,
    {
    }

    /// The smallest value.
    pub fn lowest() -> (r: Self)
        ensures
            r@ == 0,
    {
        Self { value: 0 }
    }

    /// The largest value.
    pub fn highest() -> (r: Self)
        ensures
            r@ == 100,
    {
        Self { value: 100 }
    }

    /// The number held.
    pub fn get(&self) -> (r: u16)
        ensures
            r == self@,
            Self::valid(r as int),
    {
        proof {
            use_type_invariant(self);
        }
        self.value
    }

    /// Adds `rhs`, stopping at the maximum.
    pub fn saturating_add(self, rhs: u16) -> (r: Self)
        ensures
            Self::valid(r@),
            r@ == if self@ + rhs > 100 {
                100
            } else {
                self@ + rhs
            },
    {
        proof {
            use_type_invariant(self);
        }
        let sum = self.value.saturating_add(rhs);
        if sum > 100 {
            Self { value: 100 }
        } else if sum < 0 {
            Self { value: 0 }
        } else {
            Self { value: sum }
        }
    }

    /// Subtracts `rhs`, stopping at the minimum.
    pub fn saturating_sub(self, rhs: u16) -> (r: Self)
        ensures
            Self::valid(r@),
            r@ == if self@ - rhs < 0 {
                0
            } else {
                self@ - rhs
            },
    {
        proof {
            use_type_invariant(self);
        }
        let difference = self.value.saturating_sub(rhs);
        if difference < 0 {
            Self { value: 0 }
        } else if difference > 100 {
            Self { value: 100 }
        } else {
            Self { value: difference }
        }
    }

    /// What reading a decimal text gives.
    pub open spec fn from_text(s: Seq<char>) -> Result<int, ParseBoundedNumberError<u16>> {
        match text_u64(s) {
            None => Err(ParseBoundedNumberError::ParseInt),
            Some(n) => if n > u16::MAX {
                Err(ParseBoundedNumberError::ParseInt)
            } else if Self::valid(n as int) {
                Ok(n as int)
            } else {
                Err(
                    ParseBoundedNumberError::OutOfBounds(
                        NumberOutOfBoundsError { value: n as u16, min: 0, max: 100 },
                    ),
                )
            },
        }
    }

    /// Reads a decimal text: a number of the underlying type that lies
    /// within the bounds.
    pub fn parse(s: &str) -> (r: Result<Self, ParseBoundedNumberError<u16>>)
        ensures
            match r {
                Ok(v) => Self::from_text(s@) == Ok::<int, ParseBoundedNumberError<u16>>(v@),
                Err(e) => Self::from_text(s@) == Err::<int, ParseBoundedNumberError<u16>>(e),
            },
    {
        match parse_u64(s) {
            None => Err(ParseBoundedNumberError::ParseInt),
            Some(n) => {
                if n > u16::MAX as u64 {
                    Err(ParseBoundedNumberError::ParseInt)
                } else {
                    match Self::new(n as u16) {
                        Ok(v) => Ok(v),
                        Err(e) => Err(ParseBoundedNumberError::OutOfBounds(e)),
                    }
                }
            },
        }
    }

    /// The decimal text of the number held.
    pub fn to_string(&self) -> (s: String)
        ensures
            s@ == int_text(self@),
    {
        proof {
            use_type_invariant(self);
        }
        u64_to_string(self.value as u64)
    }
}

impl FromText for Volume {
    open spec fn read(s: Seq<char>) -> Option<Self> {
        match Self::from_text(s) {
            Ok(n) => Some(Self::of_number(n)),
            Err(_) => None,
        }
    }

    fn parse_text(s: &str) -> (r: Option<Self>) {
        match Self::parse(s) {
            Ok(v) => {
                proof {
                    Self::lemma_of_number(v@);
                    v.lemma_same_number(Self::of_number(v@));
                }
                Some(v)
            },
            Err(_) => None,
        }
    }
}

/// Step by which a volume is raised or lowered, in `0..=10`.
#[derive(Clone, Copy, Debug, PartialEq, Eq, Hash, Structural)]
pub struct VolumeStep {
    value: u16,
}

impl VolumeStep {
    /// Minimum valid value, inclusive.
    pub const MIN: u16 = 0;

    /// Maximum valid value, inclusive.
    pub const MAX: u16 = 10;

    #[verifier::type_invariant]
    spec fn in_bounds(self) -> bool {
        0 <= self.value <= 10
    }

    /// The number held.
    pub closed spec fn view(self) -> int {
        self.value as int
    }

    /// Whether a number lies within the bounds of this type.
    pub open spec fn valid(value: int) -> bool {
        0 <= value <= 10
    }

    /// Values that hold the same number are the same value.
    pub proof fn lemma_same_number(self, other: Self)
        requires
            self@ == other@,
        ensures
            self == other,
    {
    }

    /// Makes a value, or reports the number that is out of bounds.
    pub fn new(value: u16) -> (r: Result<Self, NumberOutOfBoundsError<u16>>)
        ensures
            match r {
                Ok(v) => Self::valid(value as int) && v@ == value,
                Err(e) => !Self::valid(value as int) && e.value == value && e.min == 0 && e.max
                    == 10,
            },
    {
        if value <= 10 && value >= 0 {
            Ok(Self { value })
        } else {
            Err(NumberOutOfBoundsError { value, min: 0, max: 10 })
        }
    }

    /// The value that holds `n`, for `n` within the bounds.
    pub closed spec fn of_number(n: int) -> Self {
        Self { value: n as u16 }
    }

    /// The value made of a number within the bounds holds that number.
    pub proof fn lemma_of_number(n: int)
        requires
            Self::valid(n),
        ensures
            Self::of_number(n)@ == n,
    {
    }

    /// The smallest value.
    pub fn lowest() -> (r: Self)
        ensures
            r@ == 0,
    {
        Self { value: 0 }
    }

    /// The largest value.
    pub fn highest() -> (r: Self)
        ensures
            r@ == 10,
    {
        Self { value: 10 }
    }

    /// The number held.
    pub fn get(&self) -> (r: u16)
        ensures
            r == self@,
            Self::valid(r as int),
    {
        proof {
            use_type_invariant(self);
        }
        self.value
    }

    /// Adds `rhs`, stopping at the maximum.
    pub fn saturating_add(self, rhs: u16) -> (r: Self)
        ensures
            Self::valid(r@),
            r@ == if self@ + rhs > 10 {
                10
            } else {
                self@ + rhs
            },
    {
        proof {
            use_type_invariant(self);
        }
        let sum = self.value.saturating_add(rhs);
        if sum > 10 {
            Self { value: 10 }
        } else if sum < 0 {
            Self { value: 0 }
        } else {
            Self { value: sum }
        }
    }

    /// Subtracts `rhs`, stopping at the minimum.
    pub fn saturating_sub(self, rhs: u16) -> (r: Self)
        ensures
            Self::valid(r@),
            r@ == if self@ - rhs < 0 {
                0
            } else {
                self@ - rhs
            },
    {
        proof {
            use_type_invariant(self);
        }
        let difference = self.value.saturating_sub(rhs);
        if difference < 0 {
            Self { value: 0 }
        } else if difference > 10 {
            Self { value: 10 }
        } else {
            Self { value: difference }
        }
    }

    /// What reading a decimal text gives.
    pub open spec fn from_text(s: Seq<char>) -> Result<int, ParseBoundedNumberError<u16>> {
        match text_u64(s) {
            None => Err(ParseBoundedNumberError::ParseInt),
            Some(n) => if n > u16::MAX {
                Err(ParseBoundedNumberError::ParseInt)
            } else if Self::valid(n as int) {
                Ok(n as int)
            } else {
                Err(
                    ParseBoundedNumberError::OutOfBounds(
                        NumberOutOfBoundsError { value: n as u16, min: 0, max: 10 },
                    ),
                )
            },
        }
    }

    /// Reads a decimal text: a number of the underlying type that lies
    /// within the bounds.
    pub fn parse(s: &str) -> (r: Result<Self, ParseBoundedNumberError<u16>>)
        ensures
            match r {
                Ok(v) => Self::from_text(s@) == Ok::<int, ParseBoundedNumberError<u16>>(v@),
                Err(e) => Self::from_text(s@) == Err::<int, ParseBoundedNumberError<u16>>(e),
            },
    {
        match parse_u64(s) {
            None => Err(ParseBoundedNumberError::ParseInt),
            Some(n) => {
                if n > u16::MAX as u64 {
                    Err(ParseBoundedNumberError::ParseInt)
                } else {
                    match Self::new(n as u16) {
                        Ok(v) => Ok(v),
                        Err(e) => Err(ParseBoundedNumberError::OutOfBounds(e)),
                    }
                }
            },
        }
    }

    /// The decimal text of the number held.
    pub fn to_string(&self) -> (s: String)
        ensures
            s@ == int_text(self@),
    {
        proof {
            use_type_invariant(self);
        }
        u64_to_string(self.value as u64)
    }
}

impl FromText for VolumeStep {
    open spec fn read(s: Seq<char>) -> Option<Self> {
        match Self::from_text(s) {
            Ok(n) => Some(Self::of_number(n)),
            Err(_) => None,
        }
    }

    fn parse_text(s: &str) -> (r: Option<Self>) {
        match Self::parse(s) {
            Ok(v) => {
                proof {
                    Self::lemma_of_number(v@);
                    v.lemma_same_number(Self::of_number(v@));
                }
                Some(v)
            },
            Err(_) => None,
        }
    }
}

impl Default for VolumeStep {
    /// The step that the system takes when none is given: `5`.
    fn default() -> (r: Self)
        ensures
            r@ == 5,
    {
        Self { value: 5 }
    }
}

/// Whether a player or group is muted.
#[derive(Clone, Copy, Debug, PartialEq, Eq, Hash, Structural)]
pub enum MuteState {
    /// Muted.
    On,
    /// Not muted.
    Off,
}

impl MuteState {
    /// The word that stands for this value on the wire.
    pub open spec fn wire(self) -> Seq<char> {
        match self {
            MuteState::On => "on"@,
            MuteState::Off => "off"@,
        }
    }

    /// The value that a word stands for, `None` for an unknown word.
    pub open spec fn from_wire(s: Seq<char>) -> Option<Self> {
        if s == "on"@ {
            Some(MuteState::On)
        } else if s == "off"@ {
            Some(MuteState::Off)
        } else {
            None
        }
    }

    /// The word that stands for this value on the wire.
    pub fn as_str(&self) -> (s: &'static str)
        ensures
            s@ == self.wire(),
    {
        match self {
            MuteState::On => "on",
            MuteState::Off => "off",
        }
    }

    /// The wire word as an owned string.
    pub fn to_string(&self) -> (s: String)
        ensures
            s@ == self.wire(),
    {
        String::from_str(self.as_str())
    }

    /// Reads a wire word. Matching is exact: case counts.
    pub fn parse(s: &str) -> (r: Option<Self>)
        ensures
            r == Self::from_wire(s@),
    {
        if s.eq("on") {
            Some(MuteState::On)
        } else if s.eq("off") {
            Some(MuteState::Off)
        } else {
            None
        }
    }

    /// Reading the word of a value gives that value back.
    pub proof fn lemma_wire_round_trip(self)
        ensures
            Self::from_wire(self.wire()) == Some(self),
    {
        reveal_strlit("on");
        reveal_strlit("off");
        match self {
            MuteState::On => {},
            MuteState::Off => {
                assert("off"@.len() != "on"@.len());
            },
        }
    }
}

impl FromText for MuteState {
    open spec fn read(s: Seq<char>) -> Option<Self> {
        Self::from_wire(s)
    }

    fn parse_text(s: &str) -> (r: Option<Self>) {
        Self::parse(s)
    }
}
impl MuteState {
    /// The other state.
    pub fn toggled(self) -> (r: Self)
        ensures
            r != self,
    {
        match self {
            MuteState::On => MuteState::Off,
            MuteState::Off => MuteState::On,
        }
    }
}

} // verus!
