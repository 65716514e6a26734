//! Integer geometry primitives used for widget bounds and hit testing, and
//! the color type carried by widget styling state.
//!
//! Coordinates are whole pixels; arithmetic that could exceed `i32` widens to
//! `i64` so that no operation here can overflow.

use vstd::prelude::*;

verus! {

/// A point in window coordinates.
#[derive(Debug, Clone, Copy, PartialEq, Eq, Structural)]
pub struct Point {
    pub x: i32,
    pub y: i32,
}

impl Point {
    /// Create a new point.
    pub fn new(x: i32, y: i32) -> (p: Point)
        ensures
            p.x == x && p.y == y,
    {
        Point { x, y }
    }

    /// The origin.
    pub fn zero() -> (p: Point)
        ensures
            p.x == 0 && p.y == 0,
    {
        Point { x: 0, y: 0 }
    }
}

/// A width and height in pixels.
#[derive(Debug, Clone, Copy, PartialEq, Eq, Structural)]
pub struct Size {
    pub width: i32,
    pub height: i32,
}

impl Size {
    /// Create a new size.
    pub fn new(width: i32, height: i32) -> (s: Size)
        ensures
            s.width == width && s.height == height,
    {
        Size { width, height }
    }

    /// The empty size.
    pub fn zero() -> (s: Size)
        ensures
            s.width == 0 && s.height == 0,
    {
        Size { width: 0, height: 0 }
    }

    /// A square size.
    pub fn square(side: i32) -> (s: Size)
        ensures
            s.width == side && s.height == side,
    {
        Size { width: side, height: side }
    }

    /// Whether the size spans no area.
    pub fn is_empty(self) -> (r: bool)
        ensures
            r == (self.width <= 0 || self.height <= 0),
    {
        self.width <= 0 || self.height <= 0
    }
}

/// An axis-aligned rectangle: origin plus extent.
#[derive(Debug, Clone, Copy, PartialEq, Eq, Structural)]
pub struct Rect {
    pub x: i32,
    pub y: i32,
    pub width: i32,
    pub height: i32,
}

impl Rect {
    /// Whether `px`, `py` lies inside the rectangle (left and top edges
    /// inclusive, right and bottom edges exclusive).
    pub open spec fn spec_contains(self, px: int, py: int) -> bool {
        &&& self.x <= px < self.x + self.width
        &&& self.y <= py < self.y + self.height
    }

    /// Create a new rectangle.
    pub fn new(x: i32, y: i32, width: i32, height: i32) -> (r: Rect)
        ensures
            r == (Rect { x, y, width, height }),
    {
        Rect { x, y, width, height }
    }

    /// The empty rectangle at the origin.
    pub fn zero() -> (r: Rect)
        ensures
            r == (Rect { x: 0, y: 0, width: 0, height: 0 }),
    {
        Rect { x: 0, y: 0, width: 0, height: 0 }
    }

    /// Build a rectangle from a corner point and a size.
    pub fn from_point_size(point: Point, size: Size) -> (r: Rect)
        ensures
            r == (Rect { x: point.x, y: point.y, width: size.width, height: size.height }),
    {
        Rect { x: point.x, y: point.y, width: size.width, height: size.height }
    }

    /// The top-left corner.
    pub fn position(self) -> (p: Point)
        ensures
            p.x == self.x && p.y == self.y,
    {
        Point { x: self.x, y: self.y }
    }

    /// The extent.
    pub fn size(self) -> (s: Size)
        ensures
            s.width == self.width && s.height == self.height,
    {
        Size { width: self.width, height: self.height }
    }

    /// The x coordinate one past the right edge.
    pub fn right(self) -> (r: i64)
        ensures
            r == self.x + self.width,
    {
        self.x as i64 + self.width as i64
    }

    /// The y coordinate one past the bottom edge.
    pub fn bottom(self) -> (r: i64)
        ensures
            r == self.y + self.height,
    {
        self.y as i64 + self.height as i64
    }

    /// Whether the rectangle spans no area.
    pub fn is_empty(self) -> (r: bool)
        ensures
            r == (self.width <= 0 || self.height <= 0),
    {
        self.width <= 0 || self.height <= 0
    }

    /// Whether a point lies inside the rectangle.
    pub fn contains_point(self, point: Point) -> (r: bool)
        ensures
            r == self.spec_contains(point.x as int, point.y as int),
    {
        let px = point.x as i64;
        let py = point.y as i64;
        px >= self.x as i64 && px < self.x as i64 + self.width as i64 && py >= self.y as i64
            && py < self.y as i64 + self.height as i64
    }

    /// Whether two rectangles overlap in at least one point.
    pub fn intersects_with(self, other: Rect) -> (r: bool)
        ensures
            r == (self.x < other.x + other.width && other.x < self.x + self.width && self.y
                < other.y + other.height && other.y < self.y + self.height),
    {
        (self.x as i64) < other.x as i64 + other.width as i64 && (other.x as i64) < self.x as i64
            + self.width as i64 && (self.y as i64) < other.y as i64 + other.height as i64 && (
        other.y as i64) < self.y as i64 + self.height as i64
    }
}

/// An RGBA color with 8-bit channels.
#[derive(Debug, Clone, Copy, PartialEq, Eq, Structural)]
pub struct Color {
    pub r: u8,
    pub g: u8,
    pub b: u8,
    pub a: u8,
}

impl Color {
    /// Create a color from 8-bit channel values.
    pub fn rgba8(r: u8, g: u8, b: u8, a: u8) -> (c: Color)
        ensures
            c == (Color { r, g, b, a }),
    {
        Color { r, g, b, a }
    }

    /// Create an opaque color from 8-bit channel values.
    pub fn rgb8(r: u8, g: u8, b: u8) -> (c: Color)
        ensures
            c == (Color { r, g, b, a: 255 }),
    {
        Color { r, g, b, a: 255 }
    }

    /// An opaque gray with all channels equal.
    pub fn gray_level(value: u8) -> (c: Color)
        ensures
            c == (Color { r: value, g: value, b: value, a: 255 }),
    {
        Color { r: value, g: value, b: value, a: 255 }
    }

    /// Replace the alpha channel.
    pub fn with_alpha(self, alpha: u8) -> (c: Color)
        ensures
            c == (Color { a: alpha, ..self }),
    {
        Color { a: alpha, ..self }
    }

    /// Fully transparent black.
    pub fn transparent() -> (c: Color)
        ensures
            c == (Color { r: 0, g: 0, b: 0, a: 0 }),
    {
        Color { r: 0, g: 0, b: 0, a: 0 }
    }

    /// Opaque black.
    pub fn black() -> (c: Color)
        ensures
            c == (Color { r: 0, g: 0, b: 0, a: 255 }),
    {
        Color { r: 0, g: 0, b: 0, a: 255 }
    }

    /// Opaque white.
    pub fn white() -> (c: Color)
        ensures
            c == (Color { r: 255, g: 255, b: 255, a: 255 }),
    {
        Color { r: 255, g: 255, b: 255, a: 255 }
    }

    /// Opaque red.
    pub fn red() -> (c: Color)
        ensures
            c == (Color { r: 255, g: 0, b: 0, a: 255 }),
    {
        Color { r: 255, g: 0, b: 0, a: 255 }
    }

    /// Opaque green.
    pub fn green() -> (c: Color)
        ensures
            c == (Color { r: 0, g: 255, b: 0, a: 255 }),
    {
        Color { r: 0, g: 255, b: 0, a: 255 }
    }

    /// Opaque blue.
    pub fn blue() -> (c: Color)
        ensures
            c == (Color { r: 0, g: 0, b: 255, a: 255 }),
    {
        Color { r: 0, g: 0, b: 255, a: 255 }
    }

    /// Opaque yellow.
    pub fn yellow() -> (c: Color)
        ensures
            c == (Color { r: 255, g: 255, b: 0, a: 255 }),
    {
        Color { r: 255, g: 255, b: 0, a: 255 }
    }

    /// Opaque mid gray.
    pub fn gray() -> (c: Color)
        ensures
            c == (Color { r: 128, g: 128, b: 128, a: 255 }),
    {
        Color { r: 128, g: 128, b: 128, a: 255 }
    }

    /// Opaque light gray.
    pub fn light_gray() -> (c: Color)
        ensures
            c == (Color { r: 191, g: 191, b: 191, a: 255 }),
    {
        Color { r: 191, g: 191, b: 191, a: 255 }
    }

    /// Opaque dark gray.
    pub fn dark_gray() -> (c: Color)
        ensures
            c == (Color { r: 64, g: 64, b: 64, a: 255 }),
    {
        Color { r: 64, g: 64, b: 64, a: 255 }
    }
}

} // verus!

verus! {

/// The value of a hexadecimal digit, or a negative marker for any other
/// character.
pub open spec fn hex_digit_value(c: char) -> int {
    let u = c as u32;
    if 48 <= u <= 57 {
        u - 48
    } else if 65 <= u <= 70 {
        u - 55
    } else if 97 <= u <= 102 {
        u - 87
    } else {
        -1
    }
}

/// Whether every character of the sequence is a hexadecimal digit.
pub open spec fn all_hex_digits(s: Seq<char>) -> bool {
    forall|k: int| 0 <= k < s.len() ==> hex_digit_value(#[trigger] s[k]) >= 0
}

/// The byte encoded by the two digits at `i` and `i + 1`.
pub open spec fn hex_byte_at(s: Seq<char>, i: int) -> int {
    16 * hex_digit_value(s[i]) + hex_digit_value(s[i + 1])
}

/// The sequence with every leading number sign removed.
pub open spec fn trim_hashes(s: Seq<char>) -> Seq<char>
    decreases s.len(),
{
    if s.len() > 0 && s[0] == '#' {
        trim_hashes(s.skip(1))
    } else {
        s
    }
}

/// Once a non-sign character (or the end) is reached, trimming just skips
/// the signs seen so far.
proof fn lemma_trim_hashes_skip(s: Seq<char>, j: int)
    requires
        0 <= j <= s.len(),
        forall|k: int| 0 <= k < j ==> s[k] == '#',
        j < s.len() ==> s[j] != '#',
    ensures
        trim_hashes(s) == s.skip(j),
    decreases j,
{
    if j == 0 {
        assert(s.skip(0) =~= s);
    } else {
        assert(s[0] == '#');
        assert forall|k: int| 0 <= k < j - 1 implies s.skip(1)[k] == '#' by {
            assert(s.skip(1)[k] == s[k + 1]);
        }
        if j < s.len() {
            assert(s.skip(1)[j - 1] == s[j]);
        }
        lemma_trim_hashes_skip(s.skip(1), j - 1);
        assert(s.skip(1).skip(j - 1) =~= s.skip(j));
    }
}

/// The value of a hexadecimal digit character, or a negative marker.
fn hex_digit(c: char) -> (r: i32)
    ensures
        r == hex_digit_value(c),
{
    let u = c as u32;
    if 48 <= u && u <= 57 {
        (u - 48) as i32
    } else if 65 <= u && u <= 70 {
        (u - 55) as i32
    } else if 97 <= u && u <= 102 {
        (u - 87) as i32
    } else {
        -1
    }
}

impl Color {
    /// Parse a hex color string: six digits give an opaque color, eight give
    /// one with alpha, and three shorthand digits each double up. Leading
    /// number signs are ignored. Any other length is a length error, and any
    /// non-digit character a digit error, as the contract states exactly.
    pub fn from_hex(hex: &str) -> (r: Result<Color, crate::error::Error>)
        ensures
            ({
                let t = trim_hashes(hex@);
                if t.len() == 6 && all_hex_digits(t) {
                    r matches Ok(c) && c == (Color {
                        r: hex_byte_at(t, 0) as u8,
                        g: hex_byte_at(t, 2) as u8,
                        b: hex_byte_at(t, 4) as u8,
                        a: 255,
                    })
                } else if t.len() == 8 && all_hex_digits(t) {
                    r matches Ok(c) && c == (Color {
                        r: hex_byte_at(t, 0) as u8,
                        g: hex_byte_at(t, 2) as u8,
                        b: hex_byte_at(t, 4) as u8,
                        a: hex_byte_at(t, 6) as u8,
                    })
                } else if t.len() == 3 && all_hex_digits(t) {
                    r matches Ok(c) && c == (Color {
                        r: (17 * hex_digit_value(t[0])) as u8,
                        g: (17 * hex_digit_value(t[1])) as u8,
                        b: (17 * hex_digit_value(t[2])) as u8,
                        a: 255,
                    })
                } else if t.len() == 3 || t.len() == 6 || t.len() == 8 {
                    r matches Err(e) && (e matches crate::error::Error::Framework(m) && m@
                        == "Invalid hex color"@)
                } else {
                    r matches Err(e) && (e matches crate::error::Error::Framework(m) && m@
                        == "Invalid hex color length"@)
                }
            }),
    {
        let n = hex.unicode_len();
        let mut j: usize = 0;
        while j < n && hex.get_char(j) == '#'
            invariant
                n == hex@.len(),
                j <= n,
                forall|k: int| 0 <= k < j ==> hex@[k] == '#',
            decreases n - j,
        {
            j += 1;
        }
        proof {
            lemma_trim_hashes_skip(hex@, j as int);
        }
        let ghost t = hex@.skip(j as int);
        let remaining = n - j;
        if remaining != 3 && remaining != 6 && remaining != 8 {
            let err = crate::error::Error::framework("Invalid hex color length");
            proof {
                assert(t.len() == remaining);
                assert(err matches crate::error::Error::Framework(m) && m@
                    == "Invalid hex color length"@);
            }
            return Err(err);
        }
        // Read every digit, rejecting the first non-digit.
        let mut digits: Vec<i32> = Vec::new();
        let mut k: usize = 0;
        while k < remaining
            invariant
                n == hex@.len(),
                j + remaining == n,
                k <= remaining,
                t == hex@.skip(j as int),
                t == trim_hashes(hex@),
                remaining == 3 || remaining == 6 || remaining == 8,
                digits@.len() == k,
                forall|m: int| 0 <= m < k ==> digits@[m] == hex_digit_value(t[m]) && digits@[m]
                    >= 0,
            decreases remaining - k,
        {
            proof {
                assert(t[k as int] == hex@[j + k]);
            }
            let d = hex_digit(hex.get_char(j + k));
            if d < 0 {
                proof {
                    reveal_strlit("Invalid hex color");
                    assert(!all_hex_digits(t));
                }
                return Err(crate::error::Error::framework("Invalid hex color"));
            }
            digits.push(d);
            k += 1;
        }
        proof {
            assert forall|m: int| 0 <= m < t.len() implies hex_digit_value(#[trigger] t[m])
                >= 0 by {
                assert(digits@[m] == hex_digit_value(t[m]));
            }
            assert(all_hex_digits(t));
        }
        if remaining == 3 {
            let r = (17 * digits[0]) as u8;
            let g = (17 * digits[1]) as u8;
            let b = (17 * digits[2]) as u8;
            Ok(Color { r, g, b, a: 255 })
        } else if remaining == 6 {
            let r = (16 * digits[0] + digits[1]) as u8;
            let g = (16 * digits[2] + digits[3]) as u8;
            let b = (16 * digits[4] + digits[5]) as u8;
            Ok(Color { r, g, b, a: 255 })
        } else {
            let r = (16 * digits[0] + digits[1]) as u8;
            let g = (16 * digits[2] + digits[3]) as u8;
            let b = (16 * digits[4] + digits[5]) as u8;
            let a = (16 * digits[6] + digits[7]) as u8;
            Ok(Color { r, g, b, a })
        }
    }
}

} // verus!
