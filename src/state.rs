//! The render state: a color and a 2x3 affine transform.

use vstd::prelude::*;
use vstd::arithmetic::div_mod::{lemma_div_is_ordered, lemma_div_multiples_vanish};
use crate::geometry::{
    Point, Size, ONE, HALF, clamp_i32, unscale, fixed_product, fixed_mul, saturate, unscale_wide,
    wide_product,
};

verus! {

/// An RGBA color; each channel is a fixed-point number, conventionally
/// between 0 and 1 (raw `0..=ONE`) but not clamped.
#[derive(Clone, Copy, Debug, PartialEq, Eq, Structural)]
pub struct Color {
    /// The red channel.
    pub red: i32,
    /// The green channel.
    pub green: i32,
    /// The blue channel.
    pub blue: i32,
    /// The alpha channel.
    pub alpha: i32,
}

/// A color quantized to eight bits per channel, as vertices carry it.
#[derive(Clone, Copy, Debug, PartialEq, Eq, Structural)]
pub struct Color8 {
    pub red: u8,
    pub green: u8,
    pub blue: u8,
    pub alpha: u8,
}

/// A rotation given by the cosine and sine of its angle, in fixed point.
#[derive(Clone, Copy, Debug, PartialEq, Eq, Structural)]
pub struct Rotation {
    pub cos: i32,
    pub sin: i32,
}

/// One row of an affine transform: the image coordinate is
/// `x * px + y * py + offset` for a point `(px, py)`.
#[derive(Clone, Copy, Debug, PartialEq, Eq, Structural)]
pub struct Row {
    pub x: i32,
    pub y: i32,
    pub offset: i32,
}

/// One render state: the current color and the current affine transform.
/// The transform maps `(x, y)` to
/// the first coordinate by the row `t0` and the second by the row `t1`.
#[derive(Clone, Copy, Debug, PartialEq, Eq, Structural)]
pub struct State {
    pub color: Color,
    pub t0: Row,
    pub t1: Row,
}

/// Opaque white: every channel 1.
pub open spec fn white() -> Color {
    Color { red: ONE, green: ONE, blue: ONE, alpha: ONE }
}

/// `c` with each channel multiplied by the matching channel of `t`.
pub open spec fn tinted(c: Color, t: Color) -> Color {
    Color {
        red: fixed_product(c.red as int, t.red as int) as i32,
        green: fixed_product(c.green as int, t.green as int) as i32,
        blue: fixed_product(c.blue as int, t.blue as int) as i32,
        alpha: fixed_product(c.alpha as int, t.alpha as int) as i32,
    }
}

/// One channel quantized to a byte: `round(channel * 255)`, halves rounded
/// up, saturated to `0..=255`.
pub open spec fn quantized(channel: int) -> int {
    let q = unscale(channel * 255 + HALF);
    if q < 0 {
        0
    } else if q > 255 {
        255
    } else {
        q
    }
}

/// The color quantized channel by channel.
pub open spec fn quantized_color(c: Color) -> Color8 {
    Color8 {
        red: quantized(c.red as int) as u8,
        green: quantized(c.green as int) as u8,
        blue: quantized(c.blue as int) as u8,
        alpha: quantized(c.alpha as int) as u8,
    }
}

/// One coordinate of the image of `(x, y)` under `row`.
pub open spec fn row_image(row: Row, x: int, y: int) -> int {
    clamp_i32(unscale(row.x * x + row.y * y) + row.offset)
}

/// Where the transform of `s` maps the local point `p`.
pub open spec fn mapped(s: State, p: Point) -> Point {
    Point { x: row_image(s.t0, p.x as int, p.y as int) as i32, y: row_image(s.t1, p.x as int, p.y as int) as i32 }
}

/// The initial state: opaque white, identity transform.
pub open spec fn initial_state() -> State {
    State { color: white(), t0: Row { x: ONE, y: 0, offset: 0 }, t1: Row { x: 0, y: ONE, offset: 0 } }
}

/// `s` with its color replaced.
pub open spec fn recolored(s: State, c: Color) -> State {
    State { color: c, ..s }
}

/// `s` with its color tinted by `t`.
pub open spec fn tinted_state(s: State, t: Color) -> State {
    State { color: tinted(s.color, t), ..s }
}

/// `s` with its transform reset to the identity.
pub open spec fn reset(s: State) -> State {
    State { t0: Row { x: ONE, y: 0, offset: 0 }, t1: Row { x: 0, y: ONE, offset: 0 }, ..s }
}

/// `s` translated by `offset`, given in the current frame: the new
/// translation is where the current transform maps `offset`.
pub open spec fn translated(s: State, offset: Point) -> State {
    let o = mapped(s, offset);
    State { t0: Row { offset: o.x, ..s.t0 }, t1: Row { offset: o.y, ..s.t1 }, ..s }
}

/// `s` scaled in the current frame: the first column of the linear part is
/// multiplied by the width, the second by the height.
pub open spec fn scaled(s: State, size: Size) -> State {
    State {
        t0: Row {
            x: fixed_product(s.t0.x as int, size.width as int) as i32,
            y: fixed_product(s.t0.y as int, size.height as int) as i32,
            offset: s.t0.offset,
        },
        t1: Row {
            x: fixed_product(s.t1.x as int, size.width as int) as i32,
            y: fixed_product(s.t1.y as int, size.height as int) as i32,
            offset: s.t1.offset,
        },
        ..s
    }
}

/// One row of the linear part multiplied on the right by the rotation
/// matrix `[[cos, -sin], [sin, cos]]`.
pub open spec fn rotated_row(row: Row, r: Rotation) -> Row {
    Row {
        x: clamp_i32(unscale(row.x * r.cos + row.y * r.sin)) as i32,
        y: clamp_i32(unscale(row.y * r.cos - row.x * r.sin)) as i32,
        offset: row.offset,
    }
}

/// `s` rotated in the current frame.
pub open spec fn rotated(s: State, r: Rotation) -> State {
    State { t0: rotated_row(s.t0, r), t1: rotated_row(s.t1, r), ..s }
}

impl Color {
    /// A utility method that makes it neater to create a color.
    pub fn new(red: i32, green: i32, blue: i32, alpha: i32) -> (c: Color)
        ensures
            c == (Color { red, green, blue, alpha }),
    {
        Color { red, green, blue, alpha }
    }

    /// This color with each channel multiplied by the matching channel of `t`.
    pub fn tint(&self, t: Color) -> (c: Color)
        ensures
            c == tinted(*self, t),
    {
        Color {
            red: fixed_mul(self.red, t.red),
            green: fixed_mul(self.green, t.green),
            blue: fixed_mul(self.blue, t.blue),
            alpha: fixed_mul(self.alpha, t.alpha),
        }
    }

    /// This color quantized to eight bits per channel.
    pub fn quantize(&self) -> (c: Color8)
        ensures
            c == quantized_color(*self),
    {
        Color8 {
            red: quantize_channel(self.red),
            green: quantize_channel(self.green),
            blue: quantize_channel(self.blue),
            alpha: quantize_channel(self.alpha),
        }
    }
}

/// Quantizes one channel to a byte.
pub fn quantize_channel(channel: i32) -> (b: u8)
    ensures
        b == quantized(channel as int),
{
    let q = unscale_wide(wide_product(channel, 255) + HALF as i128);
    if q < 0 {
        0
    } else if q > 255 {
        255
    } else {
        q as u8
    }
}

impl Rotation {
    /// A rotation from the cosine and sine of its angle.
    pub fn new(cos: i32, sin: i32) -> (r: Rotation)
        ensures
            r == (Rotation { cos, sin }),
    {
        Rotation { cos, sin }
    }
}

/// The image of `(x, y)` under one row of a transform.
fn apply_row(row: Row, x: i32, y: i32) -> (r: i32)
    ensures
        r == row_image(row, x as int, y as int),
{
    let linear = unscale_wide(wide_product(row.x, x) + wide_product(row.y, y));
    saturate(linear + row.offset as i128)
}

/// One row of a transform rotated.
fn rotate_row(row: Row, r: Rotation) -> (out: Row)
    ensures
        out == rotated_row(row, r),
{
    let c0 = saturate(unscale_wide(wide_product(row.x, r.cos) + wide_product(row.y, r.sin)));
    let c1 = saturate(unscale_wide(wide_product(row.y, r.cos) - wide_product(row.x, r.sin)));
    Row { x: c0, y: c1, offset: row.offset }
}

impl State {
    /// The initial state: opaque white, identity transform.
    pub fn new() -> (s: State)
        ensures
            s == initial_state(),
    {
        State {
            color: Color { red: ONE, green: ONE, blue: ONE, alpha: ONE },
            t0: Row { x: ONE, y: 0, offset: 0 },
            t1: Row { x: 0, y: ONE, offset: 0 },
        }
    }

    /// Replaces the color.
    pub fn color(&mut self, color: Color)
        ensures
            *final(self) == recolored(*old(self), color),
    {
        self.color = color;
    }

    /// Multiplies the color channel by channel with `color`.
    pub fn tint(&mut self, color: Color)
        ensures
            *final(self) == tinted_state(*old(self), color),
    {
        self.color = self.color.tint(color);
    }

    /// The current color.
    pub fn get_color(&self) -> (c: Color)
        ensures
            c == self.color,
    {
        self.color
    }

    /// Resets the transform to the identity.
    pub fn identity(&mut self)
        ensures
            *final(self) == reset(*old(self)),
    {
        self.t0 = Row { x: ONE, y: 0, offset: 0 };
        self.t1 = Row { x: 0, y: ONE, offset: 0 };
    }

    /// Translates the transform by `offset`, given in the current frame.
    pub fn translate(&mut self, offset: Point)
        ensures
            *final(self) == translated(*old(self), offset),
    {
        let o = self.transform(offset);
        self.t0.offset = o.x;
        self.t1.offset = o.y;
    }

    /// Scales the transform in the current frame.
    pub fn scale(&mut self, size: Size)
        ensures
            *final(self) == scaled(*old(self), size),
    {
        self.t0.x = fixed_mul(self.t0.x, size.width);
        self.t0.y = fixed_mul(self.t0.y, size.height);
        self.t1.x = fixed_mul(self.t1.x, size.width);
        self.t1.y = fixed_mul(self.t1.y, size.height);
    }

    /// Rotates the transform in the current frame.
    pub fn rotate(&mut self, rotation: Rotation)
        ensures
            *final(self) == rotated(*old(self), rotation),
    {
        self.t0 = rotate_row(self.t0, rotation);
        self.t1 = rotate_row(self.t1, rotation);
    }

    /// Where the transform maps the local point `point`.
    pub fn transform(&self, point: Point) -> (p: Point)
        ensures
            p == mapped(*self, point),
    {
        Point { x: apply_row(self.t0, point.x, point.y), y: apply_row(self.t1, point.x, point.y) }
    }
}

/// Tinting by opaque white leaves any color, and so any state, unchanged.
pub proof fn lemma_white_tint_neutral(s: State)
    ensures
        tinted(s.color, white()) == s.color,
        tinted_state(s, white()) == s,
{
    lemma_div_multiples_vanish(s.color.red as int, ONE as int);
    lemma_div_multiples_vanish(s.color.green as int, ONE as int);
    lemma_div_multiples_vanish(s.color.blue as int, ONE as int);
    lemma_div_multiples_vanish(s.color.alpha as int, ONE as int);
}

/// Quantization sends 0 to 0 and 1 to 255, and never sends a larger
/// channel to a smaller byte.
pub proof fn lemma_quantize_monotonic(a: i32, b: i32)
    requires
        a <= b,
    ensures
        quantized(a as int) <= quantized(b as int),
        quantized(0) == 0,
        quantized(ONE as int) == 255,
{
    lemma_div_is_ordered(a * 255 + HALF, b * 255 + HALF, ONE as int);
}

} // verus!
