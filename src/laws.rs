//! The algebraic laws of transforms and directions.
use vstd::arithmetic::div_mod::{
    lemma_add_mod_noop, lemma_add_mod_noop_right, lemma_small_mod, lemma_sub_mod_noop,
    lemma_sub_mod_noop_right,
};
use vstd::prelude::*;

use crate::direction::Direction;
use crate::transform::{code_of_parts, Transform};

verus! {

/// Composition is closed: the code that the multiplication rule computes for
/// any two transforms is one of the eight codes, and the code computed for a
/// direction under a transform is one of the four codes.
pub proof fn lemma_closure(a: Transform, b: Transform, d: Direction)
    ensures
        0 <= a.compose_code(b) < 8,
        a.spec_compose(b).index() == a.compose_code(b),
        0 <= d.apply_code(a) < 4,
        d.spec_apply(a).index() == d.apply_code(a),
{
}

/// The identity is neutral on both sides, and leaves every direction in place.
pub proof fn lemma_identity(x: Transform, d: Direction)
    ensures
        Transform::Identity.spec_compose(x) == x,
        x.spec_compose(Transform::Identity) == x,
        d.spec_apply(Transform::Identity) == d,
{
}

/// Composition is associative.
pub proof fn lemma_associative(a: Transform, b: Transform, c: Transform)
    ensures
        a.spec_compose(b).spec_compose(c) == a.spec_compose(b.spec_compose(c)),
{
    lemma_compose_parts(a, b);
    lemma_compose_parts(b, c);
    let ab = a.spec_compose(b);
    let bc = b.spec_compose(c);
    lemma_compose_parts(ab, c);
    lemma_compose_parts(a, bc);
    lemma_turns_associative(a.reverses(), b.reverses(), a.turns(), b.turns(), c.turns());
    lemma_same_parts(ab.spec_compose(c), a.spec_compose(bc));
}

/// The exponent of a product, from the parts of its factors.
spec fn product_turns(ra: bool, ka: int, kb: int) -> int {
    if ra {
        (ka - kb) % 4
    } else {
        (ka + kb) % 4
    }
}

/// The exponents of `(a * b) * c` and `a * (b * c)` agree.
proof fn lemma_turns_associative(ra: bool, rb: bool, ka: int, kb: int, kc: int)
    requires
        0 <= ka < 4,
        0 <= kb < 4,
        0 <= kc < 4,
    ensures
        product_turns(ra != rb, product_turns(ra, ka, kb), kc) == product_turns(
            ra,
            ka,
            product_turns(rb, kb, kc),
        ),
{
    let x = ka + kb;
    let y = ka - kb;
    lemma_small_mod(kc as nat, 4);
    assert(kc % 4 == kc);
    if !ra && !rb {
        lemma_add_mod_noop(x, kc, 4);
        lemma_add_mod_noop_right(ka, kb + kc, 4);
        assert((x % 4 + kc) % 4 == (ka + (kb + kc) % 4) % 4);
    } else if !ra && rb {
        lemma_sub_mod_noop(x, kc, 4);
        lemma_add_mod_noop_right(ka, kb - kc, 4);
        assert((x % 4 - kc) % 4 == (ka + (kb - kc) % 4) % 4);
    } else if ra && !rb {
        lemma_sub_mod_noop(y, kc, 4);
        lemma_sub_mod_noop_right(ka, kb + kc, 4);
        assert((y % 4 - kc) % 4 == (ka - (kb + kc) % 4) % 4);
    } else {
        lemma_add_mod_noop(y, kc, 4);
        lemma_sub_mod_noop_right(ka, kb - kc, 4);
        assert((y % 4 + kc) % 4 == (ka - (kb - kc) % 4) % 4);
    }
}

/// A transform is fixed by whether it flips and by its rotation exponent.
proof fn lemma_same_parts(x: Transform, y: Transform)
    requires
        x.reverses() == y.reverses(),
        x.turns() == y.turns(),
    ensures
        x == y,
{
}

/// The parts of a product: it flips when exactly one factor flips, and its
/// exponent follows the multiplication rule.
proof fn lemma_compose_parts(a: Transform, b: Transform)
    ensures
        a.spec_compose(b).reverses() == (a.reverses() != b.reverses()),
        a.spec_compose(b).turns() == (if a.reverses() {
            (a.turns() - b.turns()) % 4
        } else {
            (a.turns() + b.turns()) % 4
        }),
        0 <= a.turns() < 4,
        0 <= b.turns() < 4,
{
}

/// Every transform composed with its inverse, on either side, is the identity;
/// every flip is its own inverse, and `Rotate90` and `Rotate270` are each
/// other's inverse.
pub proof fn lemma_inverse(t: Transform)
    ensures
        t.spec_compose(t.spec_invert()) == Transform::Identity,
        t.spec_invert().spec_compose(t) == Transform::Identity,
        t.spec_is_flip() ==> t.spec_invert() == t,
        Transform::Rotate90.spec_invert() == Transform::Rotate270,
        Transform::Rotate270.spec_invert() == Transform::Rotate90,
{
}

/// Each transform is exactly one of the identity, a rotation or a flip, and
/// each direction is exactly one of vertical or horizontal.
pub proof fn lemma_partition(t: Transform, d: Direction)
    ensures
        t.spec_is_identity() || t.spec_is_rotation() || t.spec_is_flip(),
        !(t.spec_is_identity() && t.spec_is_rotation()),
        !(t.spec_is_identity() && t.spec_is_flip()),
        !(t.spec_is_rotation() && t.spec_is_flip()),
        d.spec_is_vertical() != d.spec_is_horizontal(),
{
}

/// The canonical text of a transform or a direction parses back to it.
pub proof fn lemma_round_trip(t: Transform, d: Direction)
    ensures
        Transform::spec_parse_folded(t.symbol()) == Ok::<Transform, crate::error::NavError>(t),
        Direction::spec_parse_folded(d.letter()) == Ok::<Direction, crate::error::NavError>(d),
{
    crate::transform::lemma_parse_folded_symbol(t);
    crate::direction::lemma_parse_folded_token(d, d.letter());
}

/// The opposite of the opposite is the direction itself, and the opposite is
/// the half turn.
pub proof fn lemma_negate(d: Direction)
    ensures
        d.spec_negate().spec_negate() == d,
        d.spec_negate() == d.spec_apply(Transform::Rotate180),
{
}

/// Transforms act on directions: applying `a` and then `b` is applying `b * a`.
pub proof fn lemma_action(d: Direction, a: Transform, b: Transform)
    ensures
        d.spec_apply(a).spec_apply(b) == d.spec_apply(b.spec_compose(a)),
{
    lemma_compose_parts(b, a);
    let v = d.index();
    let w = d.apply_code(a);
    lemma_closure(a, b, d);
    lemma_closure(a, b, d.spec_apply(a));
    lemma_closure(b.spec_compose(a), b, d);
    lemma_turns_action(a.reverses(), b.reverses(), v, a.turns(), b.turns());
    lemma_same_index(d.spec_apply(a).spec_apply(b), d.spec_apply(b.spec_compose(a)));
}

/// The code of a direction under a transform, from the transform's parts.
spec fn action_code(r: bool, k: int, v: int) -> int {
    if r {
        (k - v) % 4
    } else {
        (v + k) % 4
    }
}

/// Moving a direction code by `a` and then by `b` agrees with moving it by `b * a`.
proof fn lemma_turns_action(ra: bool, rb: bool, v: int, ka: int, kb: int)
    requires
        0 <= v < 4,
        0 <= ka < 4,
        0 <= kb < 4,
    ensures
        action_code(rb, kb, action_code(ra, ka, v)) == action_code(
            rb != ra,
            product_turns(rb, kb, ka),
            v,
        ),
{
    lemma_small_mod(v as nat, 4);
    lemma_small_mod(kb as nat, 4);
    assert(v % 4 == v && kb % 4 == kb);
    if !ra && !rb {
        lemma_add_mod_noop(v + ka, kb, 4);
        lemma_add_mod_noop_right(v, kb + ka, 4);
        assert(((v + ka) % 4 + kb) % 4 == (v + (kb + ka) % 4) % 4);
    } else if ra && !rb {
        lemma_add_mod_noop(ka - v, kb, 4);
        lemma_sub_mod_noop(kb + ka, v, 4);
        assert(((ka - v) % 4 + kb) % 4 == ((kb + ka) % 4 - v) % 4);
    } else if !ra && rb {
        lemma_sub_mod_noop_right(kb, v + ka, 4);
        lemma_sub_mod_noop(kb - ka, v, 4);
        assert((kb - (v + ka) % 4) % 4 == ((kb - ka) % 4 - v) % 4);
    } else {
        lemma_sub_mod_noop_right(kb, ka - v, 4);
        lemma_add_mod_noop_right(v, kb - ka, 4);
        assert((kb - (ka - v) % 4) % 4 == (v + (kb - ka) % 4) % 4);
    }
}

/// A direction is fixed by its code.
proof fn lemma_same_index(x: Direction, y: Direction)
    requires
        x.index() == y.index(),
    ensures
        x == y,
{
}

} // verus!
