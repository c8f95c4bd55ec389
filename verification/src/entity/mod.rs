//! Sprites and the behaviour that user code attaches to them.
//!
//! Every coordinate in this crate is an IEEE-754 single-precision number held
//! as its 32-bit pattern. The library never does arithmetic on coordinates; it
//! stores them, copies them and compares them. Comparison follows the IEEE
//! rules: a NaN equals nothing, and the two zeros equal each other.

use vstd::prelude::*;
use vstd::std_specs::cmp::PartialEqSpecImpl;

verus! {

/// The bits of a pattern below its sign bit.
pub const MAGNITUDE_MASK: u32 = 0x7fff_ffff;

/// The magnitude of an infinity: all exponent bits set, no fraction bit set.
/// A larger magnitude is a NaN.
pub const INFINITY_MAGNITUDE: u32 = 0x7f80_0000;

/// Whether `bits` is the pattern of a NaN.
pub open spec fn is_nan(bits: u32) -> bool {
    (bits & MAGNITUDE_MASK) > INFINITY_MAGNITUDE
}

/// Whether `bits` is the pattern of one of the two zeros.
pub open spec fn is_zero(bits: u32) -> bool {
    (bits & MAGNITUDE_MASK) == 0
}

/// Numeric equality of the two numbers whose patterns are `a` and `b`.
pub open spec fn same_number(a: u32, b: u32) -> bool {
    &&& !is_nan(a)
    &&& !is_nan(b)
    &&& (a == b || (is_zero(a) && is_zero(b)))
}

/// Decides `same_number`.
pub fn numbers_equal(a: u32, b: u32) -> (equal: bool)
    ensures
        equal == same_number(a, b),
{
    let magnitude_a: u32 = a & MAGNITUDE_MASK;
    let magnitude_b: u32 = b & MAGNITUDE_MASK;
    if magnitude_a > INFINITY_MAGNITUDE || magnitude_b > INFINITY_MAGNITUDE {
        false
    } else {
        a == b || (magnitude_a == 0 && magnitude_b == 0)
    }
}

/// Where a sprite is drawn: its extent and the position of its top-left
/// corner, in normalized device coordinates. Each field is a bit pattern.
#[derive(Debug, Clone, Copy)]
pub struct Rect {
    pub width: u32,
    pub height: u32,
    pub position_x: u32,
    pub position_y: u32,
}

impl Rect {
    /// The rectangle of width `w` and height `h` whose top-left corner is at
    /// `(x, y)`, each given as a bit pattern.
    pub fn new(w: u32, h: u32, x: u32, y: u32) -> (rect: Self)
        ensures
            rect == (Rect { width: w, height: h, position_x: x, position_y: y }),
    {
        Rect { width: w, height: h, position_x: x, position_y: y }
    }

    /// Field by field numeric equality: what `==` computes on two rectangles.
    pub open spec fn same_numbers(self, other: Rect) -> bool {
        &&& same_number(self.width, other.width)
        &&& same_number(self.height, other.height)
        &&& same_number(self.position_x, other.position_x)
        &&& same_number(self.position_y, other.position_y)
    }

    /// Whether any field of the rectangle is a NaN. Such a rectangle differs
    /// from every rectangle, itself included.
    pub open spec fn has_nan(self) -> bool {
        is_nan(self.width) || is_nan(self.height) || is_nan(self.position_x) || is_nan(
            self.position_y,
        )
    }

    /// Whether `self` puts a sprite where `other` does: the two hold the same
    /// patterns, or the same numbers.
    pub open spec fn matches(self, other: Rect) -> bool {
        self == other || self.same_numbers(other)
    }
}

impl PartialEq for Rect {
    fn eq(&self, other: &Rect) -> (equal: bool) {
        numbers_equal(self.width, other.width) && numbers_equal(self.height, other.height)
            && numbers_equal(self.position_x, other.position_x) && numbers_equal(
            self.position_y,
            other.position_y,
        )
    }
}

impl PartialEqSpecImpl for Rect {
    open spec fn obeys_eq_spec() -> bool {
        true
    }

    open spec fn eq_spec(&self, other: &Rect) -> bool {
        self.same_numbers(*other)
    }
}

/// Numeric equality is symmetric, and reflexive on every number but a NaN.
pub proof fn lemma_same_number_is_partial_equivalence(a: u32, b: u32, c: u32)
    ensures
        same_number(a, b) == same_number(b, a),
        same_number(a, a) == !is_nan(a),
        same_number(a, b) && same_number(b, c) ==> same_number(a, c),
{
}

/// Equality of rectangles is symmetric, and reflexive on every rectangle
/// without a NaN. To show the same place is reflexive and symmetric on every
/// rectangle.
pub proof fn lemma_rect_equality(a: Rect, b: Rect)
    ensures
        a.same_numbers(b) == b.same_numbers(a),
        a.same_numbers(a) == !a.has_nan(),
        a.matches(a),
        a.matches(b) == b.matches(a),
{
}

/// What a sprite does over time. `init` runs once when the sprite is
/// registered; `update` runs once per tick and may move or resize the sprite.
pub trait Entity: Send + Sync {
    fn init(&mut self);

    fn update(&mut self, rect: &mut Rect);
}

/// A registered sprite: where it is, what moves it, and its pixels as RGBA
/// bytes with the image's width and height.
pub struct Texture {
    pub rect: Rect,
    pub entity: Box<dyn Entity>,
    pub sprite: (Vec<u8>, (u32, u32)),
}

impl Texture {
    /// A sprite at `rect` that `entity` moves, with the given pixels and
    /// dimensions.
    pub fn new(
        rect: Rect,
        entity: Box<dyn Entity>,
        pixels: Vec<u8>,
        dimensions: (u32, u32),
    ) -> (texture: Self)
        ensures
            texture.rect == rect,
            texture.sprite == (pixels, dimensions),
    {
        Texture { rect, entity, sprite: (pixels, dimensions) }
    }

    /// Runs the sprite's behaviour once on its rectangle. What the behaviour
    /// does to the rectangle and to itself is its own affair; the image
    /// stays.
    pub fn update(&mut self)
        ensures
            final(self).sprite == old(self).sprite,
    {
        self.entity.update(&mut self.rect);
    }
}

} // verus!
