//! The direction in which the streams travel.
use crate::text::lowercase;
use crate::text::same_text;
use vstd::prelude::*;
use vstd::string::StringExecFns;

verus! {

/// The direction of motion of the streams.
#[derive(Clone, Copy, Debug, PartialEq, Eq, Structural)]
pub enum Direction {
    Down,
    Up,
    Left,
    Right,
    DiagonalLeft,
    DiagonalLeftReverse,
    DiagonalRight,
    DiagonalRightReverse,
}

/// An amount taken along a step of 1, 0 or -1: the amount itself, nothing,
/// or the amount the other way.
pub open spec fn along(step: int, amount: int) -> int {
    if step > 0 {
        amount
    } else if step < 0 {
        -amount
    } else {
        0
    }
}

/// An amount taken along a step of 1, 0 or -1.
pub fn directed(step: i64, amount: i64) -> (r: i64)
    requires
        amount > i64::MIN,
    ensures
        r == along(step as int, amount as int),
{
    if step > 0 {
        amount
    } else if step < 0 {
        -amount
    } else {
        0
    }
}

impl Default for Direction {
    /// Streams fall downwards unless told otherwise.
    fn default() -> (d: Direction)
        ensures
            d == Direction::Down,
    {
        Direction::Down
    }
}

impl Direction {
    /// The step along the columns of one unit of travel: 1 to the right,
    /// -1 to the left, 0 for vertical travel.
    pub open spec fn dx(self) -> int {
        match self {
            Direction::Down | Direction::Up => 0,
            Direction::Right | Direction::DiagonalRight | Direction::DiagonalLeftReverse => 1,
            Direction::Left | Direction::DiagonalLeft | Direction::DiagonalRightReverse => -1,
        }
    }

    /// The step along the rows of one unit of travel: 1 downwards, -1
    /// upwards, 0 for horizontal travel.
    pub open spec fn dy(self) -> int {
        match self {
            Direction::Left | Direction::Right => 0,
            Direction::Down | Direction::DiagonalRight | Direction::DiagonalLeft => 1,
            Direction::Up | Direction::DiagonalLeftReverse | Direction::DiagonalRightReverse => -1,
        }
    }

    /// The unit step of the direction, columns first.
    pub fn step(self) -> (v: (i64, i64))
        ensures
            v.0 == self.dx(),
            v.1 == self.dy(),
    {
        match self {
            Direction::Down => (0, 1),
            Direction::Up => (0, -1),
            Direction::Right => (1, 0),
            Direction::Left => (-1, 0),
            Direction::DiagonalRight => (1, 1),
            Direction::DiagonalRightReverse => (-1, -1),
            Direction::DiagonalLeft => (-1, 1),
            Direction::DiagonalLeftReverse => (1, -1),
        }
    }

    /// The direction that a lowercase name stands for, if any.
    pub open spec fn named(name: Seq<char>) -> Option<Direction> {
        if name == "up"@ || name == "vertical-reverse"@ {
            Some(Direction::Up)
        } else if name == "down"@ || name == "vertical"@ {
            Some(Direction::Down)
        } else if name == "left"@ || name == "horizontal"@ {
            Some(Direction::Left)
        } else if name == "right"@ || name == "horizontal-reverse"@ {
            Some(Direction::Right)
        } else if name == "diagonal-left"@ || name == "top-left"@ {
            Some(Direction::DiagonalLeft)
        } else if name == "diagonal-left-reverse"@ || name == "bottom-right"@ {
            Some(Direction::DiagonalLeftReverse)
        } else if name == "diagonal-right"@ || name == "top-right"@ {
            Some(Direction::DiagonalRight)
        } else if name == "diagonal-right-reverse"@ || name == "bottom-left"@ {
            Some(Direction::DiagonalRightReverse)
        } else {
            None
        }
    }

    /// The direction that `name`, already in lowercase, stands for.
    pub fn from_name(name: &str) -> (r: Option<Direction>)
        ensures
            r == Direction::named(name@),
    {
        if same_text(name, "up") || same_text(name, "vertical-reverse") {
            Some(Direction::Up)
        } else if same_text(name, "down") || same_text(name, "vertical") {
            Some(Direction::Down)
        } else if same_text(name, "left") || same_text(name, "horizontal") {
            Some(Direction::Left)
        } else if same_text(name, "right") || same_text(name, "horizontal-reverse") {
            Some(Direction::Right)
        } else if same_text(name, "diagonal-left") || same_text(name, "top-left") {
            Some(Direction::DiagonalLeft)
        } else if same_text(name, "diagonal-left-reverse") || same_text(name, "bottom-right") {
            Some(Direction::DiagonalLeftReverse)
        } else if same_text(name, "diagonal-right") || same_text(name, "top-right") {
            Some(Direction::DiagonalRight)
        } else if same_text(name, "diagonal-right-reverse") || same_text(name, "bottom-left") {
            Some(Direction::DiagonalRightReverse)
        } else {
            None
        }
    }

    /// Reads a direction from its name, whatever the case of its letters.
    /// Any other text is an error that holds the text as it was given.
    pub fn parse(s: &str) -> (r: Result<Direction, ParseDirectionError>)
        ensures
            match Direction::named(lowercase(s@)) {
                Some(d) => r == Ok::<Direction, ParseDirectionError>(d),
                None => r is Err && r->Err_0.value@ == s@,
            },
    {
        let lower = s.to_lowercase();
        match Direction::from_name(lower.as_str()) {
            Some(d) => Ok(d),
            None => Err(ParseDirectionError::from(String::from_str(s))),
        }
    }
}

impl std::str::FromStr for Direction {
    type Err = ParseDirectionError;

    /// Reads a direction as `Direction::parse` does.
    fn from_str(s: &str) -> (r: Result<Self, Self::Err>)
        ensures
            match Direction::named(lowercase(s@)) {
                Some(d) => r == Ok::<Direction, ParseDirectionError>(d),
                None => r is Err && r->Err_0.value@ == s@,
            },
    {
        Direction::parse(s)
    }
}

/// The error for a text that names no direction.
#[derive(Debug, PartialEq, Eq)]
pub struct ParseDirectionError {
    pub value: String,
}

impl ParseDirectionError {
    /// The sentence that describes the error.
    pub fn message(&self) -> (m: String)
        ensures
            m@ == "Unsupported direction: "@ + self.value@,
    {
        String::from_str("Unsupported direction: ").concat(self.value.as_str())
    }
}

impl From<String> for ParseDirectionError {
    /// The error for the text `value`.
    fn from(value: String) -> (e: Self) {
        Self { value }
    }
}

impl vstd::std_specs::convert::FromSpecImpl<String> for ParseDirectionError {
    open spec fn obeys_from_spec() -> bool {
        true
    }

    open spec fn from_spec(value: String) -> Self {
        ParseDirectionError { value }
    }
}

} // verus!
