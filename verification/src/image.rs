//! Colors and 8 by 8 images of them.

use vstd::prelude::*;

verus! {

/// Width and height of an image, in pixels.
pub const SIDE: usize = 8;

/// Number of pixels of an image.
pub const PIXELS: usize = 64;

/// Number of bytes of an image: three for each pixel.
pub const BYTES: usize = 192;

/// A color, by its red, green and blue parts.
#[derive(Clone, Copy, Debug, PartialEq, Eq, Structural)]
pub struct Color {
    pub r: u8,
    pub g: u8,
    pub b: u8,
}

impl Default for Color {
    /// Black.
    fn default() -> (color: Color)
        ensures
            color == (Color { r: 0, g: 0, b: 0 }),
    {
        Color { r: 0, g: 0, b: 0 }
    }
}

impl Color {
    /// The six primary and secondary colors, in the order in which
    /// [`Color::base_color`] walks them.
    pub open spec fn base_colors() -> Seq<Color> {
        seq![
            Color { r: 255, g: 0, b: 0 },
            Color { r: 0, g: 255, b: 0 },
            Color { r: 0, g: 0, b: 255 },
            Color { r: 255, g: 255, b: 0 },
            Color { r: 0, g: 255, b: 255 },
            Color { r: 255, g: 0, b: 255 },
        ]
    }

    /// The sixteen colors of the cycle, by hue; the last one is a grey that
    /// the cycle itself does not use.
    pub open spec fn cycle_colors() -> Seq<Color> {
        seq![
            Color { r: 51, g: 0, b: 51 },
            Color { r: 51, g: 0, b: 23 },
            Color { r: 51, g: 0, b: 8 },
            Color { r: 51, g: 13, b: 0 },
            Color { r: 51, g: 25, b: 0 },
            Color { r: 51, g: 36, b: 0 },
            Color { r: 40, g: 42, b: 0 },
            Color { r: 24, g: 45, b: 0 },
            Color { r: 2, g: 46, b: 0 },
            Color { r: 0, g: 49, b: 12 },
            Color { r: 0, g: 50, b: 35 },
            Color { r: 0, g: 35, b: 39 },
            Color { r: 0, g: 15, b: 51 },
            Color { r: 17, g: 5, b: 45 },
            Color { r: 35, g: 10, b: 51 },
            Color { r: 51, g: 51, b: 51 },
        ]
    }

    /// The color with the given parts.
    pub fn new(r: u8, g: u8, b: u8) -> (color: Color)
        ensures
            color == (Color { r, g, b }),
    {
        Color { r, g, b }
    }

    /// One of six base colors, chosen by `color` modulo 6.
    pub fn base_color(color: u32) -> (base: Color)
        ensures
            base == Self::base_colors()[color as int % 6],
    {
        let color: u32 = color % 6;
        if color == 0 {
            Color::new(255, 0, 0)
        } else if color == 1 {
            Color::new(0, 255, 0)
        } else if color == 2 {
            Color::new(0, 0, 255)
        } else if color == 3 {
            Color::new(255, 255, 0)
        } else if color == 4 {
            Color::new(0, 255, 255)
        } else {
            Color::new(255, 0, 255)
        }
    }

    /// Color number `color` of the cycle.
    pub fn color_cycle(color: u32) -> (hue: Color)
        requires
            color < 16,
        ensures
            hue == Self::cycle_colors()[color as int],
    {
        match color {
            0 => Color::new(51, 0, 51),
            1 => Color::new(51, 0, 23),
            2 => Color::new(51, 0, 8),
            3 => Color::new(51, 13, 0),
            4 => Color::new(51, 25, 0),
            5 => Color::new(51, 36, 0),
            6 => Color::new(40, 42, 0),
            7 => Color::new(24, 45, 0),
            8 => Color::new(2, 46, 0),
            9 => Color::new(0, 49, 12),
            10 => Color::new(0, 50, 35),
            11 => Color::new(0, 35, 39),
            12 => Color::new(0, 15, 51),
            13 => Color::new(17, 5, 45),
            14 => Color::new(35, 10, 51),
            _ => Color::new(51, 51, 51),
        }
    }

    /// Part `part` of the color: 0 is red, 1 is green, anything else blue.
    pub open spec fn part(self, part: int) -> u8 {
        if part == 0 {
            self.r
        } else if part == 1 {
            self.g
        } else {
            self.b
        }
    }

    /// This color with part `part` set to `value`.
    pub open spec fn with_part(self, part: int, value: u8) -> Color {
        if part == 0 {
            Color { r: value, g: self.g, b: self.b }
        } else if part == 1 {
            Color { r: self.r, g: value, b: self.b }
        } else {
            Color { r: self.r, g: self.g, b: value }
        }
    }

    /// This color with each part divided by `divisor`, rounded down.
    pub open spec fn dimmed(self, divisor: int) -> Color {
        Color {
            r: (self.r as int / divisor) as u8,
            g: (self.g as int / divisor) as u8,
            b: (self.b as int / divisor) as u8,
        }
    }

    /// Divides each part of the color by `divisor`, rounding down.
    pub fn dim(self, divisor: u8) -> (color: Color)
        requires
            divisor > 0,
        ensures
            color == self.dimmed(divisor as int),
    {
        Color { r: self.r / divisor, g: self.g / divisor, b: self.b / divisor }
    }
}

/// An image of 8 rows of 8 pixels, stored row by row.
pub struct Image([Color; PIXELS]);

impl View for Image {
    type V = Seq<Color>;

    closed spec fn view(&self) -> Seq<Color> {
        self.0@
    }
}

impl Default for Image {
    /// The black image.
    fn default() -> (image: Image)
        ensures
            image@ == Seq::new(PIXELS as nat, |i: int| Color { r: 0, g: 0, b: 0 }),
    {
        Image::new_solid(Color::default())
    }
}

impl Image {
    /// An image has 64 pixels.
    pub proof fn lemma_len(&self)
        ensures
            self@.len() == PIXELS,
    {
    }

    /// The image whose pixels all have the given color.
    pub fn new_solid(color: Color) -> (image: Image)
        ensures
            image@ == Seq::new(PIXELS as nat, |i: int| color),
    {
        let image = Image([color; PIXELS]);
        assert(image@ =~= Seq::new(PIXELS as nat, |i: int| color));
        image
    }

    /// The eight pixels of row `row`.
    pub fn row(&self, row: usize) -> (pixels: &[Color])
        requires
            row < SIDE,
        ensures
            pixels@ == self@.subrange(row * 8, row * 8 + 8),
    {
        vstd::slice::slice_subrange(self.0.as_slice(), row * 8, row * 8 + 8)
    }

    /// The pixel in row `row` and column `col`.
    pub fn pixel(&self, row: usize, col: usize) -> (color: Color)
        requires
            row < SIDE,
            col < SIDE,
        ensures
            color == self@[row * 8 + col],
    {
        self.0[row * 8 + col]
    }

    /// Sets the pixel in row `row` and column `col`.
    pub fn set_pixel(&mut self, row: usize, col: usize, color: Color)
        requires
            row < SIDE,
            col < SIDE,
        ensures
            final(self)@ == old(self)@.update(row * 8 + col, color),
    {
        self.0[row * 8 + col] = color;
    }

    /// The gradient of a color: the pixel in row `row` and column `col` is
    /// the color with each part divided by `1 + row * row + col`.
    pub open spec fn gradient_of(color: Color) -> Seq<Color> {
        Seq::new(PIXELS as nat, |i: int| color.dimmed(1 + (i / 8) * (i / 8) + i % 8))
    }

    /// An image that fades `color` out from the top left corner: each pixel is
    /// the color divided by one more than the square of its row plus its
    /// column.
    pub fn gradient(color: Color) -> (image: Image)
        ensures
            image@ == Self::gradient_of(color),
    {
        let mut gradient: Image = Image::new_solid(color);
        let mut row: usize = 0;
        while row < 8
            invariant
                row <= 8,
                gradient@.len() == PIXELS,
                forall|i: int| 0 <= i < row * 8 ==> gradient@[i] == Self::gradient_of(color)[i],
                forall|i: int| row * 8 <= i < PIXELS ==> gradient@[i] == color,
            decreases 8 - row,
        {
            let mut col: usize = 0;
            while col < 8
                invariant
                    row < 8,
                    col <= 8,
                    gradient@.len() == PIXELS,
                    forall|i: int|
                        0 <= i < row * 8 + col ==> gradient@[i] == Self::gradient_of(color)[i],
                    forall|i: int| row * 8 + col <= i < PIXELS ==> gradient@[i] == color,
                decreases 8 - col,
            {
                assert(row * row <= 49) by (nonlinear_arith)
                    requires
                        row < 8,
                ;
                let divisor: u8 = (1 + row * row + col) as u8;
                let dimmed = gradient.pixel(row, col).dim(divisor);
                gradient.set_pixel(row, col, dimmed);
                col = col + 1;
            }
            row = row + 1;
        }
        assert(gradient@ =~= Self::gradient_of(color));
        gradient
    }

    /// Sets the pixel in column `x` of row `y`, if there is one: a point
    /// outside the image is ignored.
    pub fn draw_pixel(&mut self, x: i32, y: i32, color: Color)
        ensures
            final(self)@ == if 0 <= x < SIDE && 0 <= y < SIDE {
                old(self)@.update(y * 8 + x, color)
            } else {
                old(self)@
            },
    {
        if 0 <= x && x < 8 {
            if 0 <= y && y < 8 {
                self.set_pixel(y as usize, x as usize, color);
            }
        }
    }

    /// Byte `pos` of the image, which is stored pixel by pixel, each as its
    /// red, green and blue part.
    pub fn byte(&self, pos: usize) -> (value: u8)
        requires
            pos < BYTES,
        ensures
            value == self@[pos as int / 3].part(pos as int % 3),
    {
        let color = self.0[pos / 3];
        if pos % 3 == 0 {
            color.r
        } else if pos % 3 == 1 {
            color.g
        } else {
            color.b
        }
    }

    /// Sets byte `pos` of the image.
    pub fn set_byte(&mut self, pos: usize, value: u8)
        requires
            pos < BYTES,
        ensures
            final(self)@ == old(self)@.update(
                pos as int / 3,
                old(self)@[pos as int / 3].with_part(pos as int % 3, value),
            ),
    {
        let color = self.0[pos / 3];
        let changed = if pos % 3 == 0 {
            Color { r: value, g: color.g, b: color.b }
        } else if pos % 3 == 1 {
            Color { r: color.r, g: value, b: color.b }
        } else {
            Color { r: color.r, g: color.g, b: value }
        };
        self.0[pos / 3] = changed;
    }

    /// The image that 192 bytes stand for: pixel `i` has bytes `3 * i`,
    /// `3 * i + 1` and `3 * i + 2` as its red, green and blue part.
    pub open spec fn of_bytes(bytes: Seq<u8>) -> Seq<Color> {
        Seq::new(
            PIXELS as nat,
            |i: int| Color { r: bytes[3 * i], g: bytes[3 * i + 1], b: bytes[3 * i + 2] },
        )
    }

    /// Builds an image from its 192 bytes.
    pub fn from_bytes(bytes: &[u8]) -> (image: Image)
        requires
            bytes@.len() == BYTES,
        ensures
            image@ == Self::of_bytes(bytes@),
    {
        let mut image = Image::default();
        let mut i: usize = 0;
        while i < PIXELS
            invariant
                i <= PIXELS,
                bytes@.len() == BYTES,
                image@.len() == PIXELS,
                forall|j: int| 0 <= j < i ==> image@[j] == Self::of_bytes(bytes@)[j],
            decreases PIXELS - i,
        {
            image.0[i] = Color { r: bytes[3 * i], g: bytes[3 * i + 1], b: bytes[3 * i + 2] };
            i = i + 1;
        }
        assert(image@ =~= Self::of_bytes(bytes@));
        image
    }
}

} // verus!
