//! Points, displacements and the rotation between two displacements.

use vstd::prelude::*;

verus! {

/// A point of the camera frame, on the pixel grid.
#[derive(Clone, Copy, Debug, PartialEq, Eq, Structural)]
pub struct Position {
    pub x: i32,
    pub y: i32,
}

/// The displacement that a [`Vector`] stands for, over the unbounded integers.
pub struct Offset {
    pub x: int,
    pub y: int,
}

impl Offset {
    /// The displacement of no length.
    pub open spec fn zero() -> Offset {
        Offset { x: 0, y: 0 }
    }

    /// The displacement that leads from `tail` to `head`.
    pub open spec fn between(tail: Position, head: Position) -> Offset {
        Offset { x: head.x - tail.x, y: head.y - tail.y }
    }
}

/// The rotation that a [`Rotation`] stands for, over the unbounded integers.
///
/// For two displacements `a` and `b` at the angle `t` from `a` to `b`, `sine`
/// is `|a| * |b| * sin(t)` and `cosine` is `|a| * |b| * cos(t)`. The pair fixes
/// `t` in the half-open range from minus a half turn (excluded) to a half turn
/// (included) whenever it is not `(0, 0)`.
pub struct Turn {
    pub sine: int,
    pub cosine: int,
}

impl Turn {
    /// The rotation that takes the direction of `a` to the direction of `b`.
    ///
    /// Positive turns are clockwise in a frame drawn with `x` to the right and
    /// `y` upward: from `(0, 1)` to `(1, 0)` is a positive quarter turn.
    pub open spec fn between(a: Offset, b: Offset) -> Turn {
        Turn { sine: a.y * b.x - a.x * b.y, cosine: a.x * b.x + a.y * b.y }
    }

    /// Whether the pair fixes an angle at all. It does not when one of the two
    /// displacements has no length.
    pub open spec fn is_defined(self) -> bool {
        self.sine != 0 || self.cosine != 0
    }

    /// Whether this is the rotation by the angle zero.
    pub open spec fn is_null(self) -> bool {
        self.sine == 0 && self.cosine > 0
    }

    /// Whether this is the rotation by a half turn, the one angle that is its
    /// own opposite.
    pub open spec fn is_half_turn(self) -> bool {
        self.sine == 0 && self.cosine < 0
    }

    /// The rotation by the opposite angle.
    pub open spec fn reversed(self) -> Turn {
        Turn { sine: -self.sine, cosine: self.cosine }
    }
}

/// The largest magnitude of a component of a [`Vector`]: the distance between
/// the two ends of the grid.
pub const SPAN: i64 = 0xffff_ffff;

/// A displacement between two points of the grid.
#[derive(Clone, Copy, Debug, PartialEq, Eq, Structural)]
pub struct Vector {
    x: i64,
    y: i64,
}

impl View for Vector {
    type V = Offset;

    closed spec fn view(&self) -> Offset {
        Offset { x: self.x as int, y: self.y as int }
    }
}

impl Vector {
    #[verifier::type_invariant]
    spec fn in_span(self) -> bool {
        &&& -SPAN <= self.x <= SPAN
        &&& -SPAN <= self.y <= SPAN
    }

    /// The displacement with the given components.
    pub fn new(x: i32, y: i32) -> (v: Vector)
        ensures
            v@ == (Offset { x: x as int, y: y as int }),
    {
        Vector { x: x as i64, y: y as i64 }
    }

    /// The horizontal component.
    pub fn x(&self) -> (x: i64)
        ensures
            x == self@.x,
            -SPAN <= x <= SPAN,
    {
        proof {
            use_type_invariant(self);
        }
        self.x
    }

    /// The vertical component.
    pub fn y(&self) -> (y: i64)
        ensures
            y == self@.y,
            -SPAN <= y <= SPAN,
    {
        proof {
            use_type_invariant(self);
        }
        self.y
    }

    /// Whether the displacement has no length.
    pub fn is_zero(&self) -> (zero: bool)
        ensures
            zero == (self@ == Offset::zero()),
    {
        self.x == 0 && self.y == 0
    }
}

/// Two vectors are the same exactly where they stand for the same
/// displacement.
pub proof fn lemma_vector_by_view(a: Vector, b: Vector)
    ensures
        a@ == b@ <==> a == b,
{
}

/// The displacement that leads from `tail` to `head`.
pub fn vector_from(tail: Position, head: Position) -> (v: Vector)
    ensures
        v@ == Offset::between(tail, head),
        tail == head ==> v@ == Offset::zero(),
{
    Vector { x: head.x as i64 - tail.x as i64, y: head.y as i64 - tail.y as i64 }
}

/// A rotation, held exactly as the sine and the cosine of its angle, both
/// scaled by the same positive length. See [`Turn`].
#[derive(Clone, Copy, Debug, PartialEq, Eq, Structural)]
pub struct Rotation {
    pub sine: i128,
    pub cosine: i128,
}

impl View for Rotation {
    type V = Turn;

    open spec fn view(&self) -> Turn {
        Turn { sine: self.sine as int, cosine: self.cosine as int }
    }
}

/// The signed angle by which `a` must be rotated to point along `b`.
///
/// Where `a` or `b` has no length the result is `(0, 0)`, which fixes no angle.
pub fn angle_between(a: Vector, b: Vector) -> (r: Rotation)
    ensures
        r@ == Turn::between(a@, b@),
        a@ == b@ && a@ != Offset::zero() ==> r@.is_null(),
{
    let ax: i128 = a.x() as i128;
    let ay: i128 = a.y() as i128;
    let bx: i128 = b.x() as i128;
    let by: i128 = b.y() as i128;
    proof {
        lemma_product_in_span(ay as int, bx as int);
        lemma_product_in_span(ax as int, by as int);
        lemma_product_in_span(ax as int, bx as int);
        lemma_product_in_span(ay as int, by as int);
        if a@ != Offset::zero() {
            lemma_angle_to_self_is_null(a@);
        }
    }
    Rotation { sine: ay * bx - ax * by, cosine: ax * bx + ay * by }
}

proof fn lemma_product_in_span(u: int, v: int)
    by (nonlinear_arith)
    requires
        -SPAN <= u <= SPAN,
        -SPAN <= v <= SPAN,
    ensures
        -SPAN * SPAN <= u * v <= SPAN * SPAN,
{
}

/// A displacement that is not zero is at the angle zero from itself.
pub proof fn lemma_angle_to_self_is_null(v: Offset)
    by (nonlinear_arith)
    requires
        v != Offset::zero(),
    ensures
        Turn::between(v, v).is_null(),
{
}

/// Swapping the two displacements reverses the rotation between them.
///
/// Read as angles this is `angle(a, b) == -angle(b, a)`, except where the two
/// point in opposite directions: the angle is then a half turn either way.
pub proof fn lemma_angle_is_antisymmetric(a: Offset, b: Offset)
    by (nonlinear_arith)
    ensures
        Turn::between(a, b) == Turn::between(b, a).reversed(),
{
}

/// Two opposite displacements are at a half turn from each other, in both
/// orders.
pub proof fn lemma_opposite_is_half_turn(v: Offset)
    by (nonlinear_arith)
    requires
        v != Offset::zero(),
    ensures
        Turn::between(v, Offset { x: -v.x, y: -v.y }).is_half_turn(),
        Turn::between(Offset { x: -v.x, y: -v.y }, v).is_half_turn(),
{
}

/// The rotation between two displacements fixes an angle exactly where
/// neither of them is zero.
pub proof fn lemma_angle_is_defined(a: Offset, b: Offset)
    ensures
        Turn::between(a, b).is_defined() <==> a != Offset::zero() && b != Offset::zero(),
{
    let turn = Turn::between(a, b);
    let length = b.x * b.x + b.y * b.y;
    assert(b.x * turn.cosine - b.y * turn.sine == a.x * length) by (nonlinear_arith)
        requires
            turn.sine == a.y * b.x - a.x * b.y,
            turn.cosine == a.x * b.x + a.y * b.y,
            length == b.x * b.x + b.y * b.y,
    ;
    assert(b.y * turn.cosine + b.x * turn.sine == a.y * length) by (nonlinear_arith)
        requires
            turn.sine == a.y * b.x - a.x * b.y,
            turn.cosine == a.x * b.x + a.y * b.y,
            length == b.x * b.x + b.y * b.y,
    ;
    assert(length == 0 <==> b.x == 0 && b.y == 0) by (nonlinear_arith)
        requires
            length == b.x * b.x + b.y * b.y,
    ;
    if turn.sine == 0 && turn.cosine == 0 && length != 0 {
        assert(b.x * turn.cosine == 0 && b.y * turn.sine == 0 && b.y * turn.cosine == 0 && b.x
            * turn.sine == 0) by (nonlinear_arith)
            requires
                turn.sine == 0,
                turn.cosine == 0,
        ;
        assert(a.x == 0 && a.y == 0) by (nonlinear_arith)
            requires
                a.x * length == 0,
                a.y * length == 0,
                length != 0,
        ;
    }
    if a == Offset::zero() || b == Offset::zero() {
        assert(turn.sine == 0 && turn.cosine == 0) by (nonlinear_arith)
            requires
                turn.sine == a.y * b.x - a.x * b.y,
                turn.cosine == a.x * b.x + a.y * b.y,
                (a.x == 0 && a.y == 0) || (b.x == 0 && b.y == 0),
        ;
    }
}

/// No displacement leads from a point to itself.
pub proof fn lemma_vector_to_self_is_zero(p: Position)
    ensures
        Offset::between(p, p) == Offset::zero(),
{
}

} // verus!
