//! The eight symmetries of the square (the dihedral group of order 8).
use vstd::prelude::*;

use crate::error::NavError;
use crate::text::{ascii_upper_text, is_ascii_text, same_text, to_upper, upper_of};

verus! {

/// The message carried by a failed parse of a `Transform`.
pub const TRANSFORM_TOKENS: &'static str = "Invalid transform, expected one of: I, R, U, L, |, /, -, \\";

/// All transformations in their order of definition.
pub const ALL_TRANSFORMS: [Transform; 8] = [
    Transform::Identity,
    Transform::Rotate90,
    Transform::Rotate180,
    Transform::Rotate270,
    Transform::FlipHorizontal,
    Transform::FlipDiagonal,
    Transform::FlipVertical,
    Transform::FlipAntiDiagonal,
];

/// The code of the transform that is `k` quarter turns, after a flip when `flip` holds.
pub open spec fn code_of_parts(flip: bool, k: int) -> int {
    if flip {
        4 + k % 4
    } else {
        k % 4
    }
}

/// The eight transformations that can be applied to a 2D grid.
#[derive(Clone, Copy, Debug, PartialEq, Eq, Hash, Structural)]
pub enum Transform {
    /// No transformation:                  (x, y) -> ( x,  y)
    Identity,
    /// Rotate 90 degrees clockwise:        (x, y) -> ( y, -x)
    Rotate90,
    /// One half turn:                      (x, y) -> (-x, -y)
    Rotate180,
    /// Rotate 270 degrees clockwise:       (x, y) -> (-y,  x)
    Rotate270,
    /// Flip around the vertical axis:      (x, y) -> (-x,  y)
    FlipHorizontal,
    /// Flip around the main diagonal:      (x, y) -> ( y,  x)
    FlipDiagonal,
    /// Flip around the horizontal axis:    (x, y) -> ( x, -y)
    FlipVertical,
    /// Flip around the anti-diagonal:      (x, y) -> (-y, -x)
    FlipAntiDiagonal,
}

impl Transform {
    /// The numeric code of the transform, 0 to 7.
    pub open spec fn index(self) -> int {
        match self {
            Transform::Identity => 0,
            Transform::Rotate90 => 1,
            Transform::Rotate180 => 2,
            Transform::Rotate270 => 3,
            Transform::FlipHorizontal => 4,
            Transform::FlipDiagonal => 5,
            Transform::FlipVertical => 6,
            Transform::FlipAntiDiagonal => 7,
        }
    }

    /// The transform whose code is `i`, for `i` from 0 to 7.
    pub open spec fn from_index(i: int) -> Transform
        recommends
            0 <= i < 8,
    {
        if i == 0 {
            Transform::Identity
        } else if i == 1 {
            Transform::Rotate90
        } else if i == 2 {
            Transform::Rotate180
        } else if i == 3 {
            Transform::Rotate270
        } else if i == 4 {
            Transform::FlipHorizontal
        } else if i == 5 {
            Transform::FlipDiagonal
        } else if i == 6 {
            Transform::FlipVertical
        } else {
            Transform::FlipAntiDiagonal
        }
    }

    /// Whether the transform reverses orientation (codes 4 to 7).
    pub open spec fn reverses(self) -> bool {
        self.index() >= 4
    }

    /// The rotation exponent `k` of the decomposition "flip (if any), then `k` quarter turns".
    pub open spec fn turns(self) -> int {
        self.index() % 4
    }

    /// The code of `self * rhs`: the multiplication rule of the group
    /// generated by a quarter turn `r` and a flip `f`, with `f r f = r^-1`.
    pub open spec fn compose_code(self, rhs: Transform) -> int {
        if self.reverses() {
            code_of_parts(!rhs.reverses(), self.turns() - rhs.turns())
        } else {
            code_of_parts(rhs.reverses(), self.turns() + rhs.turns())
        }
    }

    /// The product `self * rhs` of two transforms.
    pub open spec fn spec_compose(self, rhs: Transform) -> Transform {
        Transform::from_index(self.compose_code(rhs))
    }

    /// The inverse: the complementary rotation, and every flip itself.
    pub open spec fn spec_invert(self) -> Transform {
        if self.reverses() {
            self
        } else {
            Transform::from_index(code_of_parts(false, -self.turns()))
        }
    }

    /// Whether the transform is the identity.
    pub open spec fn spec_is_identity(self) -> bool {
        self.index() == 0
    }

    /// Whether the transform is a quarter, half or three-quarter turn.
    pub open spec fn spec_is_rotation(self) -> bool {
        1 <= self.index() <= 3
    }

    /// Whether the transform is one of the four flips.
    pub open spec fn spec_is_flip(self) -> bool {
        self.index() >= 4
    }

    /// Returns true if the `Transform` is the `Identity` `Transform`.
    pub fn is_identity(self) -> (r: bool)
        ensures
            r == self.spec_is_identity(),
    {
        self == Transform::Identity
    }

    /// Returns true if the `Transform` is a rotation other than the identity.
    pub fn is_rotation(self) -> (r: bool)
        ensures
            r == self.spec_is_rotation(),
    {
        matches!(self, Transform::Rotate90 | Transform::Rotate180 | Transform::Rotate270)
    }

    /// Returns true if the `Transform` is a flip.
    pub fn is_flip(self) -> (r: bool)
        ensures
            r == self.spec_is_flip(),
    {
        matches!(
            self,
            Transform::FlipHorizontal | Transform::FlipDiagonal | Transform::FlipVertical
                | Transform::FlipAntiDiagonal
        )
    }

    /// The numeric code of the transform.
    pub fn to_u8(self) -> (r: u8)
        ensures
            r as int == self.index(),
    {
        match self {
            Transform::Identity => 0,
            Transform::Rotate90 => 1,
            Transform::Rotate180 => 2,
            Transform::Rotate270 => 3,
            Transform::FlipHorizontal => 4,
            Transform::FlipDiagonal => 5,
            Transform::FlipVertical => 6,
            Transform::FlipAntiDiagonal => 7,
        }
    }

    /// The result of decoding the number `v`.
    pub open spec fn spec_from_u8(v: u8) -> Result<Transform, NavError> {
        if v < 8 {
            Ok(Transform::from_index(v as int))
        } else {
            Err(NavError::OutOfRange(v))
        }
    }

    /// The transform with code `v`; fails with `OutOfRange` when `v` is 8 or more.
    pub fn from_u8(v: u8) -> (r: Result<Transform, NavError>)
        ensures
            r == Transform::spec_from_u8(v),
    {
        match v {
            0 => Ok(Transform::Identity),
            1 => Ok(Transform::Rotate90),
            2 => Ok(Transform::Rotate180),
            3 => Ok(Transform::Rotate270),
            4 => Ok(Transform::FlipHorizontal),
            5 => Ok(Transform::FlipDiagonal),
            6 => Ok(Transform::FlipVertical),
            7 => Ok(Transform::FlipAntiDiagonal),
            _ => Err(NavError::OutOfRange(v)),
        }
    }

    /// Composes two transforms: `self * rhs`.
    pub fn compose(self, rhs: Transform) -> (r: Transform)
        ensures
            r == self.spec_compose(rhs),
    {
        let a: u8 = self.to_u8();
        let b: u8 = rhs.to_u8();

        // Split each code into "is a flip" and its rotation exponent.
        let flip_a: bool = a >= 4;
        let k_a: u8 = a % 4;
        let flip_b: bool = b >= 4;
        let k_b: u8 = b % 4;

        let id: u8 = if !flip_a && !flip_b {
            (k_a + k_b) % 4  // r^i * r^j = r^(i+j)
        } else if !flip_a {
            4 + (k_a + k_b) % 4  // r^i * (r^j f) = r^(i+j) f
        } else if !flip_b {
            4 + (k_a + 4 - k_b) % 4  // (r^i f) * r^j = r^(i-j) f
        } else {
            (k_a + 4 - k_b) % 4  // (r^i f) * (r^j f) = r^(i-j)
        };
        Transform::from_u8(id).unwrap()
    }

    /// The inverse of the transform: `Rotate90` and `Rotate270` swap, every other one is its own inverse.
    pub fn invert(self) -> (r: Transform)
        ensures
            r == self.spec_invert(),
    {
        match self {
            Transform::Identity => Transform::Identity,
            Transform::Rotate90 => Transform::Rotate270,
            Transform::Rotate180 => Transform::Rotate180,
            Transform::Rotate270 => Transform::Rotate90,
            Transform::FlipHorizontal => Transform::FlipHorizontal,
            Transform::FlipDiagonal => Transform::FlipDiagonal,
            Transform::FlipVertical => Transform::FlipVertical,
            Transform::FlipAntiDiagonal => Transform::FlipAntiDiagonal,
        }
    }

    /// The one-character code of the transform: `I R U L | / - \`.
    pub open spec fn symbol(self) -> Seq<char> {
        match self {
            Transform::Identity => seq!['I'],
            Transform::Rotate90 => seq!['R'],
            Transform::Rotate180 => seq!['U'],
            Transform::Rotate270 => seq!['L'],
            Transform::FlipHorizontal => seq!['|'],
            Transform::FlipDiagonal => seq!['/'],
            Transform::FlipVertical => seq!['-'],
            Transform::FlipAntiDiagonal => seq!['\\'],
        }
    }

    /// The result of parsing a text that is already in upper case.
    pub open spec fn spec_parse_folded(u: Seq<char>) -> Result<Transform, NavError> {
        if u == Transform::Identity.symbol() {
            Ok(Transform::Identity)
        } else if u == Transform::Rotate90.symbol() {
            Ok(Transform::Rotate90)
        } else if u == Transform::Rotate180.symbol() {
            Ok(Transform::Rotate180)
        } else if u == Transform::Rotate270.symbol() {
            Ok(Transform::Rotate270)
        } else if u == Transform::FlipHorizontal.symbol() {
            Ok(Transform::FlipHorizontal)
        } else if u == Transform::FlipDiagonal.symbol() {
            Ok(Transform::FlipDiagonal)
        } else if u == Transform::FlipVertical.symbol() {
            Ok(Transform::FlipVertical)
        } else if u == Transform::FlipAntiDiagonal.symbol() {
            Ok(Transform::FlipAntiDiagonal)
        } else {
            Err(NavError::InvalidToken(TRANSFORM_TOKENS))
        }
    }

    /// The canonical text of the transform.
    pub fn to_string(&self) -> (r: String)
        ensures
            r@ == self.symbol(),
    {
        let s: &str = match *self {
            Transform::Identity => "I",
            Transform::Rotate90 => "R",
            Transform::Rotate180 => "U",
            Transform::Rotate270 => "L",
            Transform::FlipHorizontal => "|",
            Transform::FlipDiagonal => "/",
            Transform::FlipVertical => "-",
            Transform::FlipAntiDiagonal => "\\",
        };
        proof {
            reveal_strlit("I");
            reveal_strlit("R");
            reveal_strlit("U");
            reveal_strlit("L");
            reveal_strlit("|");
            reveal_strlit("/");
            reveal_strlit("-");
            reveal_strlit("\\");
        }
        s.to_owned()
    }

    /// Parses a text already in upper case: exactly one of the eight codes.
    pub fn parse_folded(u: &str) -> (r: Result<Transform, NavError>)
        ensures
            r == Transform::spec_parse_folded(u@),
    {
        proof {
            reveal_strlit("I");
            reveal_strlit("R");
            reveal_strlit("U");
            reveal_strlit("L");
            reveal_strlit("|");
            reveal_strlit("/");
            reveal_strlit("-");
            reveal_strlit("\\");
            assert("I"@ =~= Transform::Identity.symbol());
            assert("R"@ =~= Transform::Rotate90.symbol());
            assert("U"@ =~= Transform::Rotate180.symbol());
            assert("L"@ =~= Transform::Rotate270.symbol());
            assert("|"@ =~= Transform::FlipHorizontal.symbol());
            assert("/"@ =~= Transform::FlipDiagonal.symbol());
            assert("-"@ =~= Transform::FlipVertical.symbol());
            assert("\\"@ =~= Transform::FlipAntiDiagonal.symbol());
        }
        if same_text(u, "I") {
            proof {
                lemma_parse_folded_symbol(Transform::Identity);
            }
            Ok(Transform::Identity)
        } else if same_text(u, "R") {
            proof {
                lemma_parse_folded_symbol(Transform::Rotate90);
            }
            Ok(Transform::Rotate90)
        } else if same_text(u, "U") {
            proof {
                lemma_parse_folded_symbol(Transform::Rotate180);
            }
            Ok(Transform::Rotate180)
        } else if same_text(u, "L") {
            proof {
                lemma_parse_folded_symbol(Transform::Rotate270);
            }
            Ok(Transform::Rotate270)
        } else if same_text(u, "|") {
            proof {
                lemma_parse_folded_symbol(Transform::FlipHorizontal);
            }
            Ok(Transform::FlipHorizontal)
        } else if same_text(u, "/") {
            proof {
                lemma_parse_folded_symbol(Transform::FlipDiagonal);
            }
            Ok(Transform::FlipDiagonal)
        } else if same_text(u, "-") {
            proof {
                lemma_parse_folded_symbol(Transform::FlipVertical);
            }
            Ok(Transform::FlipVertical)
        } else if same_text(u, "\\") {
            proof {
                lemma_parse_folded_symbol(Transform::FlipAntiDiagonal);
            }
            Ok(Transform::FlipAntiDiagonal)
        } else {
            assert forall|t: Transform| #[trigger] t.symbol() != u@ by {
                match t {
                    Transform::Identity => {},
                    Transform::Rotate90 => {},
                    Transform::Rotate180 => {},
                    Transform::Rotate270 => {},
                    Transform::FlipHorizontal => {},
                    Transform::FlipDiagonal => {},
                    Transform::FlipVertical => {},
                    Transform::FlipAntiDiagonal => {},
                }
            }
            Err(NavError::InvalidToken(TRANSFORM_TOKENS))
        }
    }

    /// Parses a transform from its code, ignoring the case of letters.
    pub fn parse(s: &str) -> (r: Result<Transform, NavError>)
        ensures
            r == Transform::spec_parse_folded(upper_of(s@)),
            is_ascii_text(s@) ==> r == Transform::spec_parse_folded(ascii_upper_text(s@)),
            forall|t: Transform| s@ == t.symbol() ==> r == Ok::<Transform, NavError>(t),
    {
        let u = to_upper(s);
        proof {
            assert forall|t: Transform| s@ == t.symbol() implies is_ascii_text(s@) && ascii_upper_text(
                s@,
            ) == s@ by {
                assert(s@.len() == 1);
                assert(ascii_upper_text(s@) =~= s@);
            }
            lemma_symbol_injective();
        }
        Transform::parse_folded(u.as_str())
    }
}

/// Parsing the code of `t` gives `t`.
pub(crate) proof fn lemma_parse_folded_symbol(t: Transform)
    ensures
        Transform::spec_parse_folded(t.symbol()) == Ok::<Transform, NavError>(t),
{
    lemma_symbol_injective();
    assert(t.symbol() == t.symbol());
}

/// No two transforms share a code.
proof fn lemma_symbol_injective()
    ensures
        forall|a: Transform, b: Transform| #[trigger] a.symbol() == #[trigger] b.symbol() ==> a == b,
{
    assert forall|a: Transform, b: Transform| #[trigger] a.symbol() == #[trigger] b.symbol() implies a == b by {
        assert(a.symbol()[0] == b.symbol()[0]);
    }
}

impl core::ops::Mul for Transform {
    type Output = Transform;

    fn mul(self, rhs: Transform) -> Transform {
        self.compose(rhs)
    }
}

impl vstd::std_specs::ops::MulSpecImpl for Transform {
    open spec fn obeys_mul_spec() -> bool {
        true
    }

    open spec fn mul_req(self, rhs: Transform) -> bool {
        true
    }

    open spec fn mul_spec(self, rhs: Transform) -> Transform {
        self.spec_compose(rhs)
    }
}

impl core::ops::MulAssign for Transform {
    fn mul_assign(&mut self, rhs: Transform)
        ensures
            *final(self) == old(self).spec_compose(rhs),
    {
        *self = self.compose(rhs);
    }
}

impl core::ops::Neg for Transform {
    type Output = Transform;

    fn neg(self) -> Transform {
        self.invert()
    }
}

impl vstd::std_specs::ops::NegSpecImpl for Transform {
    open spec fn obeys_neg_spec() -> bool {
        true
    }

    open spec fn neg_req(self) -> bool {
        true
    }

    open spec fn neg_spec(self) -> Transform {
        self.spec_invert()
    }
}

impl core::str::FromStr for Transform {
    type Err = NavError;

    fn from_str(s: &str) -> (r: Result<Transform, NavError>)
        ensures
            r == Transform::spec_parse_folded(upper_of(s@)),
            is_ascii_text(s@) ==> r == Transform::spec_parse_folded(ascii_upper_text(s@)),
            forall|t: Transform| s@ == t.symbol() ==> r == Ok::<Transform, NavError>(t),
    {
        Transform::parse(s)
    }
}

impl From<Transform> for u8 {
    fn from(t: Transform) -> u8 {
        t.to_u8()
    }
}

impl vstd::std_specs::convert::FromSpecImpl<Transform> for u8 {
    open spec fn obeys_from_spec() -> bool {
        true
    }

    open spec fn from_spec(t: Transform) -> u8 {
        t.index() as u8
    }
}

impl TryFrom<u8> for Transform {
    type Error = NavError;

    fn try_from(v: u8) -> Result<Transform, NavError> {
        Transform::from_u8(v)
    }
}

impl vstd::std_specs::convert::TryFromSpecImpl<u8> for Transform {
    open spec fn obeys_try_from_spec() -> bool {
        true
    }

    open spec fn try_from_spec(v: u8) -> Result<Transform, NavError> {
        Transform::spec_from_u8(v)
    }
}

} // verus!
