//! The four cardinal directions.
use vstd::prelude::*;

use crate::error::NavError;
use crate::text::{ascii_upper_text, is_ascii_text, same_text, to_upper, upper_of};
use crate::transform::Transform;

verus! {

/// The message carried by a failed parse of a `Direction`.
pub const DIRECTION_TOKENS: &'static str = "Invalid direction, expected one of: N, E, S, W, North, East, South, West";

/// All cardinal directions in their order of definition.
pub const ALL_DIRECTIONS: [Direction; 4] = [
    Direction::North,
    Direction::East,
    Direction::South,
    Direction::West,
];

/// The four cardinal directions, in clockwise order starting upwards.
#[derive(Clone, Copy, Debug, PartialEq, Eq, Hash, Structural)]
pub enum Direction {
    /// Upwards
    North,
    /// Rightwards
    East,
    /// Downwards
    South,
    /// Leftwards
    West,
}

impl Direction {
    /// The numeric code of the direction: 0 to 3, clockwise from North.
    pub open spec fn index(self) -> int {
        match self {
            Direction::North => 0,
            Direction::East => 1,
            Direction::South => 2,
            Direction::West => 3,
        }
    }

    /// The direction whose code is `i`, for `i` from 0 to 3.
    pub open spec fn from_index(i: int) -> Direction
        recommends
            0 <= i < 4,
    {
        if i == 0 {
            Direction::North
        } else if i == 1 {
            Direction::East
        } else if i == 2 {
            Direction::South
        } else {
            Direction::West
        }
    }

    /// The code of the direction that `t` takes `self` to: a rotation adds its
    /// quarter turns, a flip with exponent `k` sends code `v` to `k - v`.
    pub open spec fn apply_code(self, t: Transform) -> int {
        if t.reverses() {
            (t.turns() - self.index()) % 4
        } else {
            (self.index() + t.turns()) % 4
        }
    }

    /// The direction `self * t`.
    pub open spec fn spec_apply(self, t: Transform) -> Direction {
        Direction::from_index(self.apply_code(t))
    }

    /// The opposite direction.
    pub open spec fn spec_negate(self) -> Direction {
        Direction::from_index((self.index() + 2) % 4)
    }

    /// Whether the direction is North or South.
    pub open spec fn spec_is_vertical(self) -> bool {
        self.index() % 2 == 0
    }

    /// Whether the direction is East or West.
    pub open spec fn spec_is_horizontal(self) -> bool {
        self.index() % 2 == 1
    }

    /// Returns true if the `Direction` is `North` or `South`.
    pub fn is_vertical(self) -> (r: bool)
        ensures
            r == self.spec_is_vertical(),
    {
        matches!(self, Direction::North | Direction::South)
    }

    /// Returns true if the `Direction` is `East` or `West`.
    pub fn is_horizontal(self) -> (r: bool)
        ensures
            r == self.spec_is_horizontal(),
    {
        matches!(self, Direction::East | Direction::West)
    }

    /// The numeric code of the direction.
    pub fn to_u8(self) -> (r: u8)
        ensures
            r as int == self.index(),
    {
        match self {
            Direction::North => 0,
            Direction::East => 1,
            Direction::South => 2,
            Direction::West => 3,
        }
    }

    /// The result of decoding the number `v`.
    pub open spec fn spec_from_u8(v: u8) -> Result<Direction, NavError> {
        if v < 4 {
            Ok(Direction::from_index(v as int))
        } else {
            Err(NavError::OutOfRange(v))
        }
    }

    /// The direction with code `v`; fails with `OutOfRange` when `v` is 4 or more.
    pub fn from_u8(v: u8) -> (r: Result<Direction, NavError>)
        ensures
            r == Direction::spec_from_u8(v),
    {
        match v {
            0 => Ok(Direction::North),
            1 => Ok(Direction::East),
            2 => Ok(Direction::South),
            3 => Ok(Direction::West),
            _ => Err(NavError::OutOfRange(v)),
        }
    }

    /// Applies a `Transform` to the direction: `self * t`.
    pub fn apply(self, t: Transform) -> (r: Direction)
        ensures
            r == self.spec_apply(t),
    {
        let v: u8 = self.to_u8();
        let code: u8 = match t {
            Transform::Identity => v,
            Transform::Rotate90 => (v + 1) % 4,
            Transform::Rotate180 => (v + 2) % 4,
            Transform::Rotate270 => (v + 3) % 4,
            Transform::FlipHorizontal => (4 - v) % 4,
            Transform::FlipDiagonal => (5 - v) % 4,
            Transform::FlipVertical => (6 - v) % 4,
            Transform::FlipAntiDiagonal => (7 - v) % 4,
        };
        Direction::from_u8(code).unwrap()
    }

    /// The opposite direction: North and South swap, East and West swap.
    pub fn negate(self) -> (r: Direction)
        ensures
            r == self.spec_negate(),
    {
        match self {
            Direction::North => Direction::South,
            Direction::East => Direction::West,
            Direction::South => Direction::North,
            Direction::West => Direction::East,
        }
    }

    /// The one-letter code of the direction: `N E S W`.
    pub open spec fn letter(self) -> Seq<char> {
        match self {
            Direction::North => seq!['N'],
            Direction::East => seq!['E'],
            Direction::South => seq!['S'],
            Direction::West => seq!['W'],
        }
    }

    /// The full name of the direction in upper case.
    pub open spec fn upper_name(self) -> Seq<char> {
        match self {
            Direction::North => seq!['N', 'O', 'R', 'T', 'H'],
            Direction::East => seq!['E', 'A', 'S', 'T'],
            Direction::South => seq!['S', 'O', 'U', 'T', 'H'],
            Direction::West => seq!['W', 'E', 'S', 'T'],
        }
    }

    /// Whether `u` is the letter or the upper-case name of the direction.
    pub open spec fn is_token(self, u: Seq<char>) -> bool {
        u == self.letter() || u == self.upper_name()
    }

    /// The result of parsing a text that is already in upper case.
    pub open spec fn spec_parse_folded(u: Seq<char>) -> Result<Direction, NavError> {
        if Direction::North.is_token(u) {
            Ok(Direction::North)
        } else if Direction::East.is_token(u) {
            Ok(Direction::East)
        } else if Direction::South.is_token(u) {
            Ok(Direction::South)
        } else if Direction::West.is_token(u) {
            Ok(Direction::West)
        } else {
            Err(NavError::InvalidToken(DIRECTION_TOKENS))
        }
    }

    /// The canonical text of the direction: its letter.
    pub fn to_string(&self) -> (r: String)
        ensures
            r@ == self.letter(),
    {
        let s: &str = match *self {
            Direction::North => "N",
            Direction::East => "E",
            Direction::South => "S",
            Direction::West => "W",
        };
        proof {
            reveal_strlit("N");
            reveal_strlit("E");
            reveal_strlit("S");
            reveal_strlit("W");
        }
        s.to_owned()
    }

    /// Parses a text already in upper case: a letter or a full name.
    pub fn parse_folded(u: &str) -> (r: Result<Direction, NavError>)
        ensures
            r == Direction::spec_parse_folded(u@),
    {
        proof {
            reveal_strlit("N");
            reveal_strlit("E");
            reveal_strlit("S");
            reveal_strlit("W");
            reveal_strlit("NORTH");
            reveal_strlit("EAST");
            reveal_strlit("SOUTH");
            reveal_strlit("WEST");
            assert("N"@ =~= Direction::North.letter());
            assert("E"@ =~= Direction::East.letter());
            assert("S"@ =~= Direction::South.letter());
            assert("W"@ =~= Direction::West.letter());
            assert("NORTH"@ =~= Direction::North.upper_name());
            assert("EAST"@ =~= Direction::East.upper_name());
            assert("SOUTH"@ =~= Direction::South.upper_name());
            assert("WEST"@ =~= Direction::West.upper_name());
        }
        if same_text(u, "N") || same_text(u, "NORTH") {
            proof {
                lemma_parse_folded_token(Direction::North, u@);
            }
            Ok(Direction::North)
        } else if same_text(u, "E") || same_text(u, "EAST") {
            proof {
                lemma_parse_folded_token(Direction::East, u@);
            }
            Ok(Direction::East)
        } else if same_text(u, "S") || same_text(u, "SOUTH") {
            proof {
                lemma_parse_folded_token(Direction::South, u@);
            }
            Ok(Direction::South)
        } else if same_text(u, "W") || same_text(u, "WEST") {
            proof {
                lemma_parse_folded_token(Direction::West, u@);
            }
            Ok(Direction::West)
        } else {
            assert forall|d: Direction| !#[trigger] d.is_token(u@) by {
                match d {
                    Direction::North => {},
                    Direction::East => {},
                    Direction::South => {},
                    Direction::West => {},
                }
            }
            Err(NavError::InvalidToken(DIRECTION_TOKENS))
        }
    }

    /// Parses a direction from its letter or its full name, ignoring case.
    pub fn parse(s: &str) -> (r: Result<Direction, NavError>)
        ensures
            r == Direction::spec_parse_folded(upper_of(s@)),
            is_ascii_text(s@) ==> r == Direction::spec_parse_folded(ascii_upper_text(s@)),
            forall|d: Direction| s@ == d.letter() ==> r == Ok::<Direction, NavError>(d),
    {
        let u = to_upper(s);
        proof {
            assert forall|d: Direction| s@ == d.letter() implies is_ascii_text(s@) && ascii_upper_text(
                s@,
            ) == s@ by {
                assert(s@.len() == 1);
                assert(ascii_upper_text(s@) =~= s@);
            }
            assert forall|d: Direction| s@ == d.letter() implies
                Direction::spec_parse_folded(s@) == Ok::<Direction, NavError>(d) by {
                lemma_parse_folded_token(d, s@);
            }
        }
        Direction::parse_folded(u.as_str())
    }
}

/// Parsing a token of `d` gives `d`.
pub(crate) proof fn lemma_parse_folded_token(d: Direction, u: Seq<char>)
    requires
        d.is_token(u),
    ensures
        Direction::spec_parse_folded(u) == Ok::<Direction, NavError>(d),
{
    assert forall|a: Direction, b: Direction| #[trigger] a.is_token(u) && #[trigger] b.is_token(u) implies a == b by {
        assert(u[0] == a.letter()[0]);
        assert(u[0] == b.letter()[0]);
    }
}

impl core::ops::Mul<Transform> for Direction {
    type Output = Direction;

    fn mul(self, rhs: Transform) -> Direction {
        self.apply(rhs)
    }
}

impl vstd::std_specs::ops::MulSpecImpl<Transform> for Direction {
    open spec fn obeys_mul_spec() -> bool {
        true
    }

    open spec fn mul_req(self, rhs: Transform) -> bool {
        true
    }

    open spec fn mul_spec(self, rhs: Transform) -> Direction {
        self.spec_apply(rhs)
    }
}

impl core::ops::MulAssign<Transform> for Direction {
    fn mul_assign(&mut self, rhs: Transform)
        ensures
            *final(self) == old(self).spec_apply(rhs),
    {
        *self = self.apply(rhs);
    }
}

impl core::ops::Neg for Direction {
    type Output = Direction;

    fn neg(self) -> Direction {
        self.negate()
    }
}

impl vstd::std_specs::ops::NegSpecImpl for Direction {
    open spec fn obeys_neg_spec() -> bool {
        true
    }

    open spec fn neg_req(self) -> bool {
        true
    }

    open spec fn neg_spec(self) -> Direction {
        self.spec_negate()
    }
}

impl core::str::FromStr for Direction {
    type Err = NavError;

    fn from_str(s: &str) -> (r: Result<Direction, NavError>)
        ensures
            r == Direction::spec_parse_folded(upper_of(s@)),
            is_ascii_text(s@) ==> r == Direction::spec_parse_folded(ascii_upper_text(s@)),
            forall|d: Direction| s@ == d.letter() ==> r == Ok::<Direction, NavError>(d),
    {
        Direction::parse(s)
    }
}

impl From<Direction> for u8 {
    fn from(d: Direction) -> u8 {
        d.to_u8()
    }
}

impl vstd::std_specs::convert::FromSpecImpl<Direction> for u8 {
    open spec fn obeys_from_spec() -> bool {
        true
    }

    open spec fn from_spec(d: Direction) -> u8 {
        d.index() as u8
    }
}

impl TryFrom<u8> for Direction {
    type Error = NavError;

    fn try_from(v: u8) -> Result<Direction, NavError> {
        Direction::from_u8(v)
    }
}

impl vstd::std_specs::convert::TryFromSpecImpl<u8> for Direction {
    open spec fn obeys_try_from_spec() -> bool {
        true
    }

    open spec fn try_from_spec(v: u8) -> Result<Direction, NavError> {
        Direction::spec_from_u8(v)
    }
}

} // verus!
