use vstd::prelude::*;

verus! {

/// Coordinates and velocities stay within this bound (in half-units), far
/// inside the range of `i64`, so that one frame of arithmetic cannot
/// overflow.
pub const COORD_LIMIT: i64 = 0x1000_0000_0000_0000;

/// A two-dimensional vector with components in half-units.
#[derive(Clone, Copy, Debug, PartialEq, Eq, Structural)]
pub struct Vec2 {
    pub x: i64,
    pub y: i64,
}

impl Vec2 {
    /// Both components within `COORD_LIMIT`.
    pub open spec fn in_range(self) -> bool {
        &&& -COORD_LIMIT <= self.x <= COORD_LIMIT
        &&& -COORD_LIMIT <= self.y <= COORD_LIMIT
    }

    pub fn new(x: i64, y: i64) -> (v: Vec2)
        ensures
            v.x == x,
            v.y == y,
    {
        Vec2 { x, y }
    }

    pub fn zero() -> (v: Vec2)
        ensures
            v.x == 0,
            v.y == 0,
    {
        Vec2 { x: 0, y: 0 }
    }

    /// Negate both components.
    pub fn neg(self) -> (r: Vec2)
        requires
            self.x > i64::MIN,
            self.y > i64::MIN,
        ensures
            r.x == -self.x,
            r.y == -self.y,
    {
        Vec2 { x: -self.x, y: -self.y }
    }
}

/// The magnitude of `v`.
pub open spec fn abs_val(v: int) -> int {
    if v < 0 {
        -v
    } else {
        v
    }
}

/// One of the four fixed orientations an entity can be drawn at.
#[derive(Clone, Copy, Debug, PartialEq, Eq, Structural)]
pub enum Rotation {
    Default,
    Ninety,
    HundredEighty,
    TwoSeventy,
}

/// A quarter turn in either direction swaps an entity's effective width
/// and height.
pub open spec fn spec_swapped(r: Rotation) -> bool {
    r is Ninety || r is TwoSeventy
}

/// An axis-aligned box: an anchor point and two extents, in half-units.
#[derive(Clone, Copy, Debug, PartialEq, Eq, Structural)]
pub struct Rect {
    pub x: i64,
    pub y: i64,
    pub width: i64,
    pub height: i64,
}

/// A drawable game object. The image itself lives with the renderer; an
/// entity records only the image's native size, in screen units.
#[derive(Clone, Copy, Debug, PartialEq, Eq, Structural)]
pub struct Entity {
    /// Native width of the image, in screen units.
    pub texture_width: u32,
    /// Native height of the image, in screen units.
    pub texture_height: u32,
    /// Center of the entity on screen, in half-units.
    pub location: Vec2,
    /// Displacement added to `location` each frame, in half-units.
    pub velocity: Vec2,
    pub rotation_type: Rotation,
}

impl Entity {
    /// Effective width in screen units: the native height when the entity
    /// is turned a quarter turn, the native width otherwise.
    pub open spec fn spec_width(self) -> u32 {
        if spec_swapped(self.rotation_type) {
            self.texture_height
        } else {
            self.texture_width
        }
    }

    /// Effective height in screen units: the counterpart of `spec_width`.
    pub open spec fn spec_height(self) -> u32 {
        if spec_swapped(self.rotation_type) {
            self.texture_width
        } else {
            self.texture_height
        }
    }

    /// The collision box: anchored at the entity's location, with extents
    /// of half the effective size. (Half of `spec_width` screen units is
    /// exactly `spec_width` half-units.)
    pub open spec fn spec_bounds(self) -> Rect {
        Rect {
            x: self.location.x,
            y: self.location.y,
            width: self.spec_width() as i64,
            height: self.spec_height() as i64,
        }
    }

    /// The center-offset overlap test: the anchors differ by less than
    /// this entity's box extents on both axes. Only this entity's extents
    /// enter the test; the other box contributes its anchor alone.
    pub open spec fn spec_intersects_with(self, other_bounds: Rect) -> bool {
        let b = self.spec_bounds();
        &&& abs_val(other_bounds.x - b.x) < b.width
        &&& abs_val(other_bounds.y - b.y) < b.height
    }

    pub fn new(
        texture_width: u32,
        texture_height: u32,
        location: Vec2,
        rotation_type: Rotation,
    ) -> (e: Entity)
        ensures
            e == (Entity {
                texture_width,
                texture_height,
                location,
                velocity: Vec2 { x: 0, y: 0 },
                rotation_type,
            }),
    {
        Entity {
            texture_width,
            texture_height,
            location,
            rotation_type,
            velocity: Vec2::zero(),
        }
    }

    pub fn new_with_velocity(
        texture_width: u32,
        texture_height: u32,
        location: Vec2,
        rotation_type: Rotation,
        velocity: Vec2,
    ) -> (e: Entity)
        ensures
            e == (Entity { texture_width, texture_height, location, velocity, rotation_type }),
    {
        Entity { texture_width, texture_height, location, rotation_type, velocity }
    }

    /// Effective width in screen units.
    pub fn width(&self) -> (w: u32)
        ensures
            w == self.spec_width(),
    {
        if matches!(self.rotation_type, Rotation::Default) {
            self.width_texture()
        } else if matches!(self.rotation_type, Rotation::Ninety) {
            self.height_texture()
        } else if matches!(self.rotation_type, Rotation::HundredEighty) {
            self.width_texture()
        } else {
            self.height_texture()
        }
    }

    /// Effective height in screen units.
    pub fn height(&self) -> (h: u32)
        ensures
            h == self.spec_height(),
    {
        if matches!(self.rotation_type, Rotation::Default) {
            self.height_texture()
        } else if matches!(self.rotation_type, Rotation::Ninety) {
            self.width_texture()
        } else if matches!(self.rotation_type, Rotation::HundredEighty) {
            self.height_texture()
        } else {
            self.width_texture()
        }
    }

    /// The draw rotation in hundredths of a radian. Quarter turns are the
    /// approximations 157, 314 and 471 rather than exact multiples of a
    /// right angle; the renderer divides by one hundred.
    pub fn draw_angle(&self) -> (a: u32)
        ensures
            a == spec_draw_angle(self.rotation_type),
    {
        if matches!(self.rotation_type, Rotation::Default) {
            0
        } else if matches!(self.rotation_type, Rotation::Ninety) {
            157
        } else if matches!(self.rotation_type, Rotation::HundredEighty) {
            314
        } else {
            471
        }
    }

    /// Native width of the image, in screen units.
    pub fn width_texture(&self) -> (w: u32)
        ensures
            w == self.texture_width,
    {
        self.texture_width
    }

    /// Native height of the image, in screen units.
    pub fn height_texture(&self) -> (h: u32)
        ensures
            h == self.texture_height,
    {
        self.texture_height
    }

    /// The origin the entity is drawn about: half its effective size, so
    /// that it is drawn centered on its location.
    pub fn get_draw_position(&self) -> (v: Vec2)
        ensures
            v.x == self.spec_width(),
            v.y == self.spec_height(),
    {
        self.width_height_half()
    }

    /// The effective size as a vector, in half-units.
    pub fn width_height(&self) -> (v: Vec2)
        ensures
            v.x == 2 * self.spec_width(),
            v.y == 2 * self.spec_height(),
    {
        Vec2 { x: 2 * (self.width() as i64), y: 2 * (self.height() as i64) }
    }

    /// Half the effective size as a vector: exactly `spec_width` and
    /// `spec_height` half-units.
    pub fn width_height_half(&self) -> (v: Vec2)
        ensures
            v.x == self.spec_width(),
            v.y == self.spec_height(),
    {
        Vec2 { x: self.width() as i64, y: self.height() as i64 }
    }

    pub fn bounds(&self) -> (b: Rect)
        ensures
            b == self.spec_bounds(),
    {
        Rect {
            x: self.location.x,
            y: self.location.y,
            width: self.width() as i64,
            height: self.height() as i64,
        }
    }

    /// Whether this entity's box overlaps `other_bounds` under the
    /// center-offset test.
    pub fn intersects_with(&self, other_bounds: Rect) -> (r: bool)
        requires
            i64::MIN < other_bounds.x - self.location.x <= i64::MAX,
            i64::MIN < other_bounds.y - self.location.y <= i64::MAX,
        ensures
            r == self.spec_intersects_with(other_bounds),
    {
        let self_bounds = self.bounds();
        let x: i64 = other_bounds.x - self_bounds.x;
        let y: i64 = other_bounds.y - self_bounds.y;
        let ax: i64 = if x < 0 { -x } else { x };
        let ay: i64 = if y < 0 { -y } else { y };
        ax < self_bounds.width && ay < self_bounds.height
    }

    /// Whether this entity's box overlaps the other entity's box under
    /// the center-offset test, taken from this entity's side.
    pub fn intersects_with_object(&self, other: &Entity) -> (r: bool)
        requires
            i64::MIN < other.location.x - self.location.x <= i64::MAX,
            i64::MIN < other.location.y - self.location.y <= i64::MAX,
        ensures
            r == self.spec_intersects_with(other.spec_bounds()),
    {
        self.intersects_with(other.bounds())
    }
}

/// The draw rotation in hundredths of a radian for each orientation.
pub open spec fn spec_draw_angle(r: Rotation) -> u32 {
    match r {
        Rotation::Default => 0,
        Rotation::Ninety => 157,
        Rotation::HundredEighty => 314,
        Rotation::TwoSeventy => 471,
    }
}

/// An entity drawn upright or upside down keeps its image's native size.
pub proof fn lemma_effective_size_unrotated(e: Entity)
    requires
        e.rotation_type is Default || e.rotation_type is HundredEighty,
    ensures
        e.spec_width() == e.texture_width,
        e.spec_height() == e.texture_height,
{
}

/// An entity drawn at a quarter turn swaps its image's native width and
/// height.
pub proof fn lemma_effective_size_swapped(e: Entity)
    requires
        e.rotation_type is Ninety || e.rotation_type is TwoSeventy,
    ensures
        e.spec_width() == e.texture_height,
        e.spec_height() == e.texture_width,
{
}

/// The center-offset overlap test is symmetric whenever the two entities'
/// boxes have the same extents; each side then tests the same offset
/// against the same bound.
pub proof fn lemma_intersects_symmetric(a: Entity, b: Entity)
    requires
        a.spec_width() == b.spec_width(),
        a.spec_height() == b.spec_height(),
    ensures
        a.spec_intersects_with(b.spec_bounds()) == b.spec_intersects_with(a.spec_bounds()),
{
}

} // verus!
