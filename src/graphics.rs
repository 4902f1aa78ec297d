use vstd::prelude::*;
use vstd::math::abs;

verus! {

/// Width of the canvas, in pixels; canvas coordinates run over `-300 .. 300`.
pub const CANVAS_WIDTH: i32 = 600;

/// Height of the canvas, in pixels; canvas coordinates run over `-300 .. 300`.
pub const CANVAS_HEIGHT: i32 = 600;

/// Row width of a pixel buffer.
pub const SCREEN_WIDTH: usize = 600;

/// Number of rows of a pixel buffer.
pub const SCREEN_HEIGHT: usize = 600;

/// Red, green and blue bytes of one pixel.
pub type PixelColour = [u8; 3];

/// A frame, row-major from the top-left corner.
pub type PixelBuf = Vec<PixelColour>;

/// A colour with one byte for each of red, green and blue.
#[derive(Clone, Copy, Debug, PartialEq, Eq, Structural)]
pub struct CanvasColour {
    pub r: u8,
    pub g: u8,
    pub b: u8,
}

impl CanvasColour {
    pub fn new(r: u8, g: u8, b: u8) -> (c: CanvasColour)
        ensures
            c.r == r,
            c.g == g,
            c.b == b,
    {
        CanvasColour { r, g, b }
    }

    /// The background colour of a ray that hits nothing.
    pub fn white() -> (c: CanvasColour)
        ensures
            c.r == 255 && c.g == 255 && c.b == 255,
    {
        CanvasColour { r: 255, g: 255, b: 255 }
    }

    /// The channels in display order.
    pub open spec fn channels(self) -> Seq<u8> {
        seq![self.r, self.g, self.b]
    }

    pub fn as_pixels(self) -> (p: PixelColour)
        ensures
            p@ == self.channels(),
    {
        [self.r, self.g, self.b]
    }
}

impl From<(u8, u8, u8)> for CanvasColour {
    fn from(colour: (u8, u8, u8)) -> (c: CanvasColour) {
        CanvasColour::new(colour.0, colour.1, colour.2)
    }
}

impl vstd::std_specs::convert::FromSpecImpl<(u8, u8, u8)> for CanvasColour {
    open spec fn obeys_from_spec() -> bool {
        true
    }

    open spec fn from_spec(colour: (u8, u8, u8)) -> CanvasColour {
        CanvasColour { r: colour.0, g: colour.1, b: colour.2 }
    }
}

/// A point (or direction) in space with three coordinates of type `T`.
#[derive(Clone, Copy, Debug, PartialEq)]
pub struct Point<T> {
    pub x: T,
    pub y: T,
    pub z: T,
}

impl<T> Point<T> {
    pub fn new(x: T, y: T, z: T) -> (p: Point<T>)
        ensures
            p.x == x,
            p.y == y,
            p.z == z,
    {
        Point { x, y, z }
    }
}

/// Sum of the products of matching coordinates, over the integers.
pub open spec fn dot3(ax: int, ay: int, az: int, bx: int, by: int, bz: int) -> int {
    ax * bx + ay * by + az * bz
}

/// True when every partial sum of `dot3` fits in an `i64`.
pub open spec fn dot3_fits(ax: int, ay: int, az: int, bx: int, by: int, bz: int) -> bool {
    &&& fits_i64(ax * bx)
    &&& fits_i64(ay * by)
    &&& fits_i64(az * bz)
    &&& fits_i64(ax * bx + ay * by)
    &&& fits_i64(dot3(ax, ay, az, bx, by, bz))
}

/// Quotient of `a` by `b` rounded toward zero, as integer division in Rust does.
pub open spec fn div_toward_zero(a: int, b: int) -> int {
    let q: int = abs(a) as int / abs(b) as int;
    if (a < 0) != (b < 0) {
        -q
    } else {
        q
    }
}

/// `a / b` on `i64`, rounding toward zero.
fn div_i64(a: i64, b: i64) -> (q: i64)
    requires
        b != 0,
        !(a == i64::MIN && b == -1),
    ensures
        q == div_toward_zero(a as int, b as int),
{
    let ma: i128 = if a < 0 { -(a as i128) } else { a as i128 };
    let mb: i128 = if b < 0 { -(b as i128) } else { b as i128 };
    let m: i128 = ma / mb;
    proof {
        if mb == 1 {
            assert(m == ma) by (nonlinear_arith)
                requires
                    m == ma / mb,
                    mb == 1,
            ;
        } else {
            assert(m <= ma / 2) by (nonlinear_arith)
                requires
                    m == ma / mb,
                    ma >= 0,
                    mb >= 2,
            ;
        }
    }
    let q: i128 = if (a < 0) != (b < 0) { -m } else { m };
    q as i64
}

/// True when `v` fits in an `i64`.
pub open spec fn fits_i64(v: int) -> bool {
    i64::MIN <= v <= i64::MAX
}

impl Point<i64> {
    pub open spec fn spec_dot(self, other: Point<i64>) -> int {
        dot3(
            self.x as int,
            self.y as int,
            self.z as int,
            other.x as int,
            other.y as int,
            other.z as int,
        )
    }

    pub open spec fn dot_fits(self, other: Point<i64>) -> bool {
        dot3_fits(
            self.x as int,
            self.y as int,
            self.z as int,
            other.x as int,
            other.y as int,
            other.z as int,
        )
    }

    pub fn dot(self, other: Point<i64>) -> (d: i64)
        requires
            self.dot_fits(other),
        ensures
            d == self.spec_dot(other),
    {
        self.x * other.x + self.y * other.y + self.z * other.z
    }

    pub fn mul_scalar(self, mul: &i64) -> (p: Point<i64>)
        requires
            fits_i64(self.x * *mul),
            fits_i64(self.y * *mul),
            fits_i64(self.z * *mul),
        ensures
            p.x == self.x * *mul,
            p.y == self.y * *mul,
            p.z == self.z * *mul,
    {
        Point { x: self.x * *mul, y: self.y * *mul, z: self.z * *mul }
    }

    /// Divides each coordinate by `other`, rounding toward zero.
    pub fn div(self, other: i64) -> (p: Point<i64>)
        requires
            other != 0,
            other == -1 ==> self.x != i64::MIN && self.y != i64::MIN && self.z != i64::MIN,
        ensures
            p.x == div_toward_zero(self.x as int, other as int),
            p.y == div_toward_zero(self.y as int, other as int),
            p.z == div_toward_zero(self.z as int, other as int),
    {
        Point { x: div_i64(self.x, other), y: div_i64(self.y, other), z: div_i64(self.z, other) }
    }

    pub fn sub(self, other: Point<i64>) -> (p: Point<i64>)
        requires
            fits_i64(self.x - other.x),
            fits_i64(self.y - other.y),
            fits_i64(self.z - other.z),
        ensures
            p.x == self.x - other.x,
            p.y == self.y - other.y,
            p.z == self.z - other.z,
    {
        Point { x: self.x - other.x, y: self.y - other.y, z: self.z - other.z }
    }

    pub fn add(self, other: Point<i64>) -> (p: Point<i64>)
        requires
            fits_i64(self.x + other.x),
            fits_i64(self.y + other.y),
            fits_i64(self.z + other.z),
        ensures
            p.x == self.x + other.x,
            p.y == self.y + other.y,
            p.z == self.z + other.z,
    {
        Point { x: self.x + other.x, y: self.y + other.y, z: self.z + other.z }
    }
}

/// A vector with three coordinates of type `T`.
#[derive(Clone, Copy, Debug, PartialEq)]
pub struct Vec3<T> {
    pub x: T,
    pub y: T,
    pub z: T,
}

impl<T> Vec3<T> {
    pub fn new(x: T, y: T, z: T) -> (v: Vec3<T>)
        ensures
            v.x == x,
            v.y == y,
            v.z == z,
    {
        Vec3 { x, y, z }
    }
}

impl Vec3<i64> {
    pub open spec fn spec_dot(self, other: Vec3<i64>) -> int {
        dot3(
            self.x as int,
            self.y as int,
            self.z as int,
            other.x as int,
            other.y as int,
            other.z as int,
        )
    }

    pub open spec fn dot_fits(self, other: Vec3<i64>) -> bool {
        dot3_fits(
            self.x as int,
            self.y as int,
            self.z as int,
            other.x as int,
            other.y as int,
            other.z as int,
        )
    }

    pub fn dot(self, other: Vec3<i64>) -> (d: i64)
        requires
            self.dot_fits(other),
        ensures
            d == self.spec_dot(other),
    {
        self.x * other.x + self.y * other.y + self.z * other.z
    }

    pub fn sub(self, other: Vec3<i64>) -> (v: Vec3<i64>)
        requires
            fits_i64(self.x - other.x),
            fits_i64(self.y - other.y),
            fits_i64(self.z - other.z),
        ensures
            v.x == self.x - other.x,
            v.y == self.y - other.y,
            v.z == self.z - other.z,
    {
        Vec3 { x: self.x - other.x, y: self.y - other.y, z: self.z - other.z }
    }

    pub fn add(self, other: Vec3<i64>) -> (v: Vec3<i64>)
        requires
            fits_i64(self.x + other.x),
            fits_i64(self.y + other.y),
            fits_i64(self.z + other.z),
        ensures
            v.x == self.x + other.x,
            v.y == self.y + other.y,
            v.z == self.z + other.z,
    {
        Vec3 { x: self.x + other.x, y: self.y + other.y, z: self.z + other.z }
    }
}

/// Row-major index of canvas coordinate `(x, y)` in a buffer of row width
/// `SCREEN_WIDTH`; the canvas centre sits at the middle of the buffer and `y`
/// grows upward.
pub open spec fn pixel_index(x: int, y: int) -> int {
    let screen_x = CANVAS_WIDTH / 2 - x;
    let screen_y = CANVAS_HEIGHT / 2 - y;
    (screen_x - 1) + (screen_y - 1) * SCREEN_WIDTH
}

/// Writes `colour` at the buffer position of canvas coordinate `(x, y)`; a
/// position outside the buffer is skipped.
pub fn put_pixel(framebuffer: &mut PixelBuf, x: i32, y: i32, colour: CanvasColour)
    ensures
        final(framebuffer)@.len() == old(framebuffer)@.len(),
        forall|i: int|
            0 <= i < old(framebuffer)@.len() && i != pixel_index(x as int, y as int)
                ==> #[trigger] final(framebuffer)@[i] == old(framebuffer)@[i],
        0 <= pixel_index(x as int, y as int) < old(framebuffer)@.len()
            ==> final(framebuffer)@[pixel_index(x as int, y as int)]@ == colour.channels(),
{
    let screen_x: i64 = (CANVAS_WIDTH / 2) as i64 - x as i64;
    let screen_y: i64 = (CANVAS_HEIGHT / 2) as i64 - y as i64;
    assert(-4_000_000_000 < screen_y - 1 < 4_000_000_000);
    assert(-2_400_000_000_000 < (screen_y - 1) * 600 < 2_400_000_000_000) by (nonlinear_arith)
        requires
            -4_000_000_000 < screen_y - 1 < 4_000_000_000,
    ;
    let index: i64 = (screen_x - 1) + (screen_y - 1) * SCREEN_WIDTH as i64;
    if 0 <= index && (index as u64) < framebuffer.len() as u64 {
        framebuffer.set(index as usize, colour.as_pixels());
    }
}

} // verus!
