use crate::traits::{Clamp, Lerp, Max, Min};
use vstd::prelude::*;

verus! {

/// A colour of four channels: red, green, blue and alpha.
#[derive(Clone, Copy, Debug, PartialEq, Eq, Structural, Hash)]
pub struct Color {
    pub r: u8,
    pub g: u8,
    pub b: u8,
    pub a: u8,
}

impl Min for Color {
    open spec fn lesser(&self, rhs: &Self) -> Self {
        Color {
            r: if self.r <= rhs.r { self.r } else { rhs.r },
            g: if self.g <= rhs.g { self.g } else { rhs.g },
            b: if self.b <= rhs.b { self.b } else { rhs.b },
            a: if self.a <= rhs.a { self.a } else { rhs.a },
        }
    }

    /// The channel-wise lesser of two colours.
    fn min(&self, rhs: &Self) -> (lesser: Self) {
        Color {
            r: if self.r <= rhs.r { self.r } else { rhs.r },
            g: if self.g <= rhs.g { self.g } else { rhs.g },
            b: if self.b <= rhs.b { self.b } else { rhs.b },
            a: if self.a <= rhs.a { self.a } else { rhs.a },
        }
    }
}

impl Max for Color {
    open spec fn greater(&self, rhs: &Self) -> Self {
        Color {
            r: if self.r >= rhs.r { self.r } else { rhs.r },
            g: if self.g >= rhs.g { self.g } else { rhs.g },
            b: if self.b >= rhs.b { self.b } else { rhs.b },
            a: if self.a >= rhs.a { self.a } else { rhs.a },
        }
    }

    /// The channel-wise greater of two colours.
    fn max(&self, rhs: &Self) -> (greater: Self) {
        Color {
            r: if self.r >= rhs.r { self.r } else { rhs.r },
            g: if self.g >= rhs.g { self.g } else { rhs.g },
            b: if self.b >= rhs.b { self.b } else { rhs.b },
            a: if self.a >= rhs.a { self.a } else { rhs.a },
        }
    }
}

impl Lerp<Color, u8> for Color {
    type Output = Color;

    open spec fn lerp_fits(self, rhs: Color, lerp: u8) -> bool {
        &&& self.r.lerp_fits(rhs.r, lerp)
        &&& self.g.lerp_fits(rhs.g, lerp)
        &&& self.b.lerp_fits(rhs.b, lerp)
        &&& self.a.lerp_fits(rhs.a, lerp)
    }

    open spec fn lerped(self, rhs: Color, lerp: u8) -> Color {
        Color {
            r: self.r.lerped(rhs.r, lerp),
            g: self.g.lerped(rhs.g, lerp),
            b: self.b.lerped(rhs.b, lerp),
            a: self.a.lerped(rhs.a, lerp),
        }
    }

    /// The channel-wise interpolation of two colours.
    fn lerp(self, rhs: Color, lerp: u8) -> (lerped: Color) {
        Color {
            r: self.r.lerp(rhs.r, lerp),
            g: self.g.lerp(rhs.g, lerp),
            b: self.b.lerp(rhs.b, lerp),
            a: self.a.lerp(rhs.a, lerp),
        }
    }
}

impl Color {
    /// The colour that `new(255, 255, 255, 0)` gives.
    pub fn transparent() -> (color: Color)
        ensures
            color == (Color { r: 255, g: 255, b: 255, a: 0 }),
    {
        Color::new(255, 255, 255, 0)
    }

    /// The colour that `new(255, 255, 255, 255)` gives.
    pub fn white() -> (color: Color)
        ensures
            color == (Color { r: 255, g: 255, b: 255, a: 255 }),
    {
        Color::new(255, 255, 255, 255)
    }

    /// The colour that `new(0, 0, 0, 255)` gives.
    pub fn black() -> (color: Color)
        ensures
            color == (Color { r: 0, g: 0, b: 0, a: 255 }),
    {
        Color::new(0, 0, 0, 255)
    }

    /// The colour that `new(255, 0, 0, 255)` gives.
    pub fn red() -> (color: Color)
        ensures
            color == (Color { r: 255, g: 0, b: 0, a: 255 }),
    {
        Color::new(255, 0, 0, 255)
    }

    /// The colour that `new(0, 255, 0, 255)` gives.
    pub fn green() -> (color: Color)
        ensures
            color == (Color { r: 0, g: 0, b: 255, a: 255 }),
    {
        Color::new(0, 255, 0, 255)
    }

    /// The colour that `new(0, 0, 255, 255)` gives.
    pub fn blue() -> (color: Color)
        ensures
            color == (Color { r: 0, g: 255, b: 0, a: 255 }),
    {
        Color::new(0, 0, 255, 255)
    }

    /// The colour that `new(255, 255, 0, 255)` gives.
    pub fn yellow() -> (color: Color)
        ensures
            color == (Color { r: 255, g: 0, b: 255, a: 255 }),
    {
        Color::new(255, 255, 0, 255)
    }

    /// The colour that `new(255, 0, 255, 255)` gives.
    pub fn magenta() -> (color: Color)
        ensures
            color == (Color { r: 255, g: 255, b: 0, a: 255 }),
    {
        Color::new(255, 0, 255, 255)
    }

    /// The colour that `new(0, 255, 255, 255)` gives.
    pub fn cyan() -> (color: Color)
        ensures
            color == (Color { r: 0, g: 255, b: 255, a: 255 }),
    {
        Color::new(0, 255, 255, 255)
    }

    /// A colour from its channels. Blue comes before green here.
    pub fn new(r: u8, b: u8, g: u8, a: u8) -> (color: Color)
        ensures
            color == (Color { r, g, b, a }),
    {
        Color { r, g, b, a }
    }

    /// Each colour channel taken from alpha.
    pub fn inverted(&self) -> (color: Color)
        requires
            self.r <= self.a,
            self.g <= self.a,
            self.b <= self.a,
        ensures
            color == (Color {
                r: (self.a - self.r) as u8,
                g: (self.a - self.g) as u8,
                b: (self.a - self.b) as u8,
                a: self.a,
            }),
    {
        Color { r: self.a - self.r, g: self.a - self.g, b: self.a - self.b, a: self.a }
    }

    /// Each colour channel raised by `delta`.
    pub fn brighten(&self, delta: u8) -> (color: Color)
        requires
            self.r + delta <= u8::MAX,
            self.g + delta <= u8::MAX,
            self.b + delta <= u8::MAX,
        ensures
            color == (Color {
                r: (self.r + delta) as u8,
                g: (self.g + delta) as u8,
                b: (self.b + delta) as u8,
                a: self.a,
            }),
    {
        Color { r: self.r + delta, g: self.g + delta, b: self.b + delta, a: self.a }
    }

    /// Each colour channel lowered by `delta`.
    pub fn dim(&self, delta: u8) -> (color: Color)
        requires
            delta <= self.r,
            delta <= self.g,
            delta <= self.b,
        ensures
            color == (Color {
                r: (self.r - delta) as u8,
                g: (self.g - delta) as u8,
                b: (self.b - delta) as u8,
                a: self.a,
            }),
    {
        Color { r: self.r - delta, g: self.g - delta, b: self.b - delta, a: self.a }
    }

    /// This colour held channel-wise between `min` and `max`.
    pub fn clamp_py(&self, min: &Color, max: &Color) -> (color: Color)
        ensures
            color == self.greater(min).lesser(max),
    {
        self.clamp(min, max)
    }

    /// The channel-wise lesser of this colour and `rhs`.
    pub fn min_py(&self, rhs: &Color) -> (color: Color)
        ensures
            color == self.lesser(rhs),
    {
        self.min(rhs)
    }

    /// The channel-wise greater of this colour and `rhs`.
    pub fn max_py(&self, rhs: &Color) -> (color: Color)
        ensures
            color == self.greater(rhs),
    {
        self.max(rhs)
    }
}

} // verus!
