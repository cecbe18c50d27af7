//! Axis-aligned bounding boxes and the overlap test between two of them.

use vstd::prelude::*;
use crate::units::{in_range, midpoint, fits, halfway};

verus! {

/// A point of the plane, or a displacement, in exact integers.
pub struct Point {
    pub x: int,
    pub y: int,
}

/// An axis-aligned rectangle in exact integers. The y axis points down, so
/// `top` is the least y coordinate.
pub struct Rect {
    pub left: int,
    pub top: int,
    pub width: int,
    pub height: int,
}

impl Rect {
    /// The x coordinate of the right edge.
    pub open spec fn right(self) -> int {
        self.left + self.width
    }

    /// The y coordinate of the bottom edge.
    pub open spec fn bottom(self) -> int {
        self.top + self.height
    }

    /// The top-left corner.
    pub open spec fn top_left(self) -> Point {
        Point { x: self.left, y: self.top }
    }

    /// The top-right corner.
    pub open spec fn top_right(self) -> Point {
        Point { x: self.right(), y: self.top }
    }

    /// The bottom-left corner.
    pub open spec fn bottom_left(self) -> Point {
        Point { x: self.left, y: self.bottom() }
    }

    /// The bottom-right corner.
    pub open spec fn bottom_right(self) -> Point {
        Point { x: self.right(), y: self.bottom() }
    }

    /// The y coordinate halfway between the top and the bottom edge.
    pub open spec fn center_y(self) -> int {
        midpoint(self.top, self.bottom())
    }

    /// The rectangle shifted by `(dx, dy)`.
    pub open spec fn translated(self, dx: int, dy: int) -> Rect {
        Rect { left: self.left + dx, top: self.top + dy, width: self.width, height: self.height }
    }

    /// The rectangle of the same size whose top-left corner is `(x, y)`.
    pub open spec fn moved_to(self, x: int, y: int) -> Rect {
        Rect { left: x, top: y, width: self.width, height: self.height }
    }

    /// Whether the interiors of the two rectangles meet. Edges that only
    /// touch do not count.
    pub open spec fn overlaps(self, other: Rect) -> bool {
        &&& other.left < self.right()
        &&& other.right() > self.left
        &&& other.top < self.bottom()
        &&& other.bottom() > self.top
    }

    /// Whether some axis separates the two rectangles: along it one ends
    /// before, or exactly where, the other begins.
    pub open spec fn apart(self, other: Rect) -> bool {
        ||| self.right() <= other.left
        ||| other.right() <= self.left
        ||| self.bottom() <= other.top
        ||| other.bottom() <= self.top
    }

    /// Whether every corner coordinate is a scalar that can be stored.
    pub open spec fn representable(self) -> bool {
        &&& in_range(self.left)
        &&& in_range(self.top)
        &&& in_range(self.right())
        &&& in_range(self.bottom())
    }
}

/// A point with fixed-point coordinates.
#[derive(Clone, Copy, PartialEq, Eq, Structural, Debug)]
pub struct Vec2 {
    pub x: i64,
    pub y: i64,
}

impl View for Vec2 {
    type V = Point;

    open spec fn view(&self) -> Point {
        Point { x: self.x as int, y: self.y as int }
    }
}

/// An axis-aligned rectangle kept as its four corners. The corners are only
/// ever moved together, so they always form a rectangle.
#[derive(Clone, Copy, PartialEq, Eq, Structural, Debug)]
pub struct BoundingBox {
    top_left: Vec2,
    top_right: Vec2,
    bottom_left: Vec2,
    bottom_right: Vec2,
}

impl View for BoundingBox {
    type V = Rect;

    closed spec fn view(&self) -> Rect {
        Rect {
            left: self.top_left.x as int,
            top: self.top_left.y as int,
            width: self.top_right.x - self.top_left.x,
            height: self.bottom_left.y - self.top_left.y,
        }
    }
}

impl BoundingBox {
    /// The four corners agree with each other on the edges they share.
    pub closed spec fn is_rectangle(&self) -> bool {
        &&& self.top_right.y == self.top_left.y
        &&& self.bottom_left.x == self.top_left.x
        &&& self.bottom_right.x == self.top_right.x
        &&& self.bottom_right.y == self.bottom_left.y
    }

    /// The corners form a rectangle and can be stored.
    pub open spec fn wf(&self) -> bool {
        &&& self.is_rectangle()
        &&& self@.representable()
    }

    /// The box of the given size whose top-left corner is `top_left`.
    pub fn new(top_left: Vec2, width: i64, height: i64) -> (b: BoundingBox)
        requires
            (Rect {
                left: top_left.x as int,
                top: top_left.y as int,
                width: width as int,
                height: height as int,
            }).representable(),
        ensures
            b.wf(),
            b@ == (Rect {
                left: top_left.x as int,
                top: top_left.y as int,
                width: width as int,
                height: height as int,
            }),
    {
        let right: i64 = top_left.x + width;
        let bottom: i64 = top_left.y + height;
        BoundingBox {
            top_left,
            top_right: Vec2 { x: right, y: top_left.y },
            bottom_left: Vec2 { x: top_left.x, y: bottom },
            bottom_right: Vec2 { x: right, y: bottom },
        }
    }

    /// The top-left corner.
    pub fn top_left(&self) -> (p: Vec2)
        requires
            self.wf(),
        ensures
            p@ == self@.top_left(),
    {
        self.top_left
    }

    /// The top-right corner.
    pub fn top_right(&self) -> (p: Vec2)
        requires
            self.wf(),
        ensures
            p@ == self@.top_right(),
    {
        self.top_right
    }

    /// The bottom-left corner.
    pub fn bottom_left(&self) -> (p: Vec2)
        requires
            self.wf(),
        ensures
            p@ == self@.bottom_left(),
    {
        self.bottom_left
    }

    /// The bottom-right corner.
    pub fn bottom_right(&self) -> (p: Vec2)
        requires
            self.wf(),
        ensures
            p@ == self@.bottom_right(),
    {
        self.bottom_right
    }

    /// The y coordinate halfway between the top and the bottom edge.
    pub fn center_y(&self) -> (c: i64)
        requires
            self.wf(),
        ensures
            c == self@.center_y(),
            in_range(c as int),
    {
        halfway(self.top_left.y, self.bottom_left.y)
    }

    /// Whether the box can be shifted by `(x, y)` without a corner leaving
    /// the range of stored scalars.
    pub fn can_translate_by(&self, x: i64, y: i64) -> (ok: bool)
        requires
            self.wf(),
        ensures
            ok == self@.translated(x as int, y as int).representable(),
    {
        fits(self.top_left.x as i128 + x as i128)
            && fits(self.top_left.y as i128 + y as i128)
            && fits(self.top_right.x as i128 + x as i128)
            && fits(self.bottom_left.y as i128 + y as i128)
    }

    /// Shifts all four corners by `(x, y)`.
    pub fn translate_by(&mut self, x: i64, y: i64)
        requires
            old(self).wf(),
            old(self)@.translated(x as int, y as int).representable(),
        ensures
            final(self).wf(),
            final(self)@ == old(self)@.translated(x as int, y as int),
    {
        self.top_left = Vec2 { x: self.top_left.x + x, y: self.top_left.y + y };
        self.top_right = Vec2 { x: self.top_right.x + x, y: self.top_right.y + y };
        self.bottom_left = Vec2 { x: self.bottom_left.x + x, y: self.bottom_left.y + y };
        self.bottom_right = Vec2 { x: self.bottom_right.x + x, y: self.bottom_right.y + y };
    }

    /// Whether the box can be placed with its top-left corner at `(x, y)`
    /// without a corner leaving the range of stored scalars.
    pub fn can_translate_to(&self, x: i64, y: i64) -> (ok: bool)
        requires
            self.wf(),
        ensures
            ok == self@.moved_to(x as int, y as int).representable(),
    {
        let width: i128 = self.top_right.x as i128 - self.top_left.x as i128;
        let height: i128 = self.bottom_left.y as i128 - self.top_left.y as i128;
        fits(x as i128) && fits(y as i128) && fits(x as i128 + width) && fits(y as i128 + height)
    }

    /// Places the top-left corner at `(x, y)` and keeps the size.
    pub fn translate_to(&mut self, x: i64, y: i64)
        requires
            old(self).wf(),
            old(self)@.moved_to(x as int, y as int).representable(),
        ensures
            final(self).wf(),
            final(self)@ == old(self)@.moved_to(x as int, y as int),
            final(self)@.top_left() == (Point { x: x as int, y: y as int }),
            final(self)@.width == old(self)@.width,
            final(self)@.height == old(self)@.height,
    {
        let width_of_object: i128 = self.top_right.x as i128 - self.top_left.x as i128;
        let height_of_object: i128 = self.bottom_left.y as i128 - self.top_left.y as i128;
        let right: i64 = (x as i128 + width_of_object) as i64;
        let bottom: i64 = (y as i128 + height_of_object) as i64;

        self.top_left = Vec2 { x: x, y: y };
        self.top_right = Vec2 { x: right, y: y };
        self.bottom_left = Vec2 { x: x, y: bottom };
        self.bottom_right = Vec2 { x: right, y: bottom };
    }
}

/// A test for whether two objects of type `T` collide.
pub trait CollisionDetection<T> {
    /// What it means for the two objects to collide.
    spec fn collides(obj_1: &T, obj_2: &T) -> bool;

    /// Whether the two objects collide.
    fn is_colliding(obj_1: &T, obj_2: &T) -> (hit: bool)
        ensures
            hit == Self::collides(obj_1, obj_2),
    ;
}

/// Collision of axis-aligned bounding boxes: two boxes collide when their
/// interiors meet.
pub struct AABB;

impl CollisionDetection<BoundingBox> for AABB {
    open spec fn collides(obj_1: &BoundingBox, obj_2: &BoundingBox) -> bool {
        obj_1@.overlaps(obj_2@)
    }

    fn is_colliding(obj_1: &BoundingBox, obj_2: &BoundingBox) -> (hit: bool) {
        obj_2.top_left.x < obj_1.top_right.x && obj_2.top_right.x > obj_1.top_left.x
            && obj_2.top_left.y < obj_1.bottom_left.y && obj_2.bottom_left.y > obj_1.top_left.y
    }
}

/// The length of the common part of the intervals `[lo_1, hi_1]` and
/// `[lo_2, hi_2]`; zero or less when they share at most a point.
pub open spec fn shared_extent(lo_1: int, hi_1: int, lo_2: int, hi_2: int) -> int {
    (if hi_1 <= hi_2 { hi_1 } else { hi_2 }) - (if lo_1 >= lo_2 { lo_1 } else { lo_2 })
}

/// Two boxes that an axis separates, by a gap or by edges that only touch,
/// do not collide.
pub proof fn lemma_apart_never_collides(a: Rect, b: Rect)
    requires
        a.apart(b),
    ensures
        !a.overlaps(b),
        !b.overlaps(a),
{
}

/// Two boxes that share a stretch of positive length on both axes collide.
pub proof fn lemma_shared_on_both_axes_collides(a: Rect, b: Rect)
    requires
        shared_extent(a.left, a.right(), b.left, b.right()) > 0,
        shared_extent(a.top, a.bottom(), b.top, b.bottom()) > 0,
    ensures
        a.overlaps(b),
        b.overlaps(a),
{
}

/// The overlap test gives the same answer whichever box comes first.
pub proof fn lemma_overlap_is_symmetric(a: Rect, b: Rect)
    ensures
        a.overlaps(b) == b.overlaps(a),
{
}

/// Shifting twice is shifting once by the sum of the two displacements, at
/// every corner.
pub proof fn lemma_translations_add_up(r: Rect, dx1: int, dy1: int, dx2: int, dy2: int)
    ensures
        r.translated(dx1, dy1).translated(dx2, dy2) == r.translated(dx1 + dx2, dy1 + dy2),
        r.translated(dx1, dy1).translated(dx2, dy2).top_left()
            == r.translated(dx1 + dx2, dy1 + dy2).top_left(),
        r.translated(dx1, dy1).translated(dx2, dy2).top_right()
            == r.translated(dx1 + dx2, dy1 + dy2).top_right(),
        r.translated(dx1, dy1).translated(dx2, dy2).bottom_left()
            == r.translated(dx1 + dx2, dy1 + dy2).bottom_left(),
        r.translated(dx1, dy1).translated(dx2, dy2).bottom_right()
            == r.translated(dx1 + dx2, dy1 + dy2).bottom_right(),
{
}

/// Shifting moves every corner by the displacement and keeps the size.
pub proof fn lemma_translation_moves_every_corner(r: Rect, dx: int, dy: int)
    ensures
        r.translated(dx, dy).top_left() == (Point { x: r.top_left().x + dx, y: r.top_left().y + dy }),
        r.translated(dx, dy).top_right()
            == (Point { x: r.top_right().x + dx, y: r.top_right().y + dy }),
        r.translated(dx, dy).bottom_left()
            == (Point { x: r.bottom_left().x + dx, y: r.bottom_left().y + dy }),
        r.translated(dx, dy).bottom_right()
            == (Point { x: r.bottom_right().x + dx, y: r.bottom_right().y + dy }),
        r.translated(dx, dy).width == r.width,
        r.translated(dx, dy).height == r.height,
{
}

/// Placing a box puts its top-left corner where asked and keeps its size,
/// whatever shifts came before.
pub proof fn lemma_placement_forgets_earlier_shifts(r: Rect, dx: int, dy: int, x: int, y: int)
    ensures
        r.moved_to(x, y).top_left() == (Point { x, y }),
        r.moved_to(x, y).width == r.width,
        r.moved_to(x, y).height == r.height,
        r.translated(dx, dy).moved_to(x, y) == r.moved_to(x, y),
{
}

} // verus!
