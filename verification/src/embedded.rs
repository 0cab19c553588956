//! Images drawn from shapes and from text.

use vstd::prelude::*;
use crate::graphics::{on_outline, outline_points, render_text, rendered_text};
use crate::image::{Color, Image, PIXELS};

verus! {

/// Whether one of the first `k` of `points` is pixel `i` of an image.
pub open spec fn hit(points: Seq<(i32, i32)>, k: int, i: int) -> bool {
    exists|j: int| 0 <= j < k && #[trigger] points[j] == ((i % 8) as i32, (i / 8) as i32)
}

impl Image {
    /// The black image.
    pub open spec fn black() -> Seq<Color> {
        Seq::new(PIXELS as nat, |i: int| Color { r: 0, g: 0, b: 0 })
    }

    /// `pixels` with the outline of the 3 by 3 square at `(x, y)` in `color`.
    pub open spec fn outlined(pixels: Seq<Color>, x: int, y: int, color: Color) -> Seq<Color> {
        Seq::new(
            PIXELS as nat,
            |i: int|
                if on_outline(x, y, 3, 3, i % 8, i / 8) {
                    color
                } else {
                    pixels[i]
                },
        )
    }

    /// Four nested square outlines along the diagonal, the first drawn
    /// being the lowest and rightmost, each later one two pixels up and to
    /// the left and covering what it overlaps. Shape 0 starts at `(5, 5)`,
    /// any other shape at `(6, 6)`.
    pub open spec fn shape_of(
        shape: u32,
        color1: Color,
        color2: Color,
        color3: Color,
        color4: Color,
    ) -> Seq<Color> {
        let start: int = if shape == 0 {
            5
        } else {
            6
        };
        Self::outlined(
            Self::outlined(
                Self::outlined(
                    Self::outlined(Self::black(), start, start, color1),
                    start - 2,
                    start - 2,
                    color2,
                ),
                start - 4,
                start - 4,
                color3,
            ),
            start - 6,
            start - 6,
            color4,
        )
    }

    /// Draws the outline of the 3 by 3 square whose top left corner is
    /// `(x, y)`; what falls outside the image is cut off.
    pub fn draw_outline(&mut self, x: i32, y: i32, color: Color)
        ensures
            final(self)@ == Self::outlined(old(self)@, x as int, y as int, color),
    {
        proof {
            self.lemma_len();
        }
        if x < -3 || x > 8 || y < -3 || y > 8 {
            // The square lies outside the image.
            assert(self@ =~= Self::outlined(self@, x as int, y as int, color));
            return ;
        }
        let points = outline_points(x, y, 3, 3);
        let mut k: usize = 0;
        while k < points.len()
            invariant
                k <= points@.len(),
                self@.len() == PIXELS,
                old(self)@.len() == PIXELS,
                forall|i: int|
                    0 <= i < PIXELS ==> self@[i] == if hit(points@, k as int, i) {
                        color
                    } else {
                        old(self)@[i]
                    },
            decreases points@.len() - k,
        {
            let point = points[k];
            self.draw_pixel(point.0, point.1, color);
            proof {
                self.lemma_len();
                assert forall|i: int| 0 <= i < PIXELS implies self@[i] == if hit(
                    points@,
                    k + 1,
                    i,
                ) {
                    color
                } else {
                    old(self)@[i]
                } by {
                    let here = points@[k as int] == ((i % 8) as i32, (i / 8) as i32);
                    if hit(points@, k as int, i) {
                        let j = choose|j: int|
                            0 <= j < k && #[trigger] points@[j] == ((i % 8) as i32, (i / 8) as i32);
                        assert(points@[j] == ((i % 8) as i32, (i / 8) as i32));
                        assert(hit(points@, k + 1, i));
                    } else if here {
                        assert(hit(points@, k + 1, i));
                    } else {
                        assert(!hit(points@, k + 1, i));
                    }
                }
            }
            k = k + 1;
        }
        proof {
            assert forall|i: int| 0 <= i < PIXELS implies self@[i] == Self::outlined(
                old(self)@,
                x as int,
                y as int,
                color,
            )[i] by {
                let p = ((i % 8) as i32, (i / 8) as i32);
                if hit(points@, points@.len() as int, i) {
                    let j = choose|j: int|
                        0 <= j < points@.len() && #[trigger] points@[j] == p;
                    assert(points@.contains(p));
                } else {
                    if points@.contains(p) {
                        let j = choose|j: int| 0 <= j < points@.len() && points@[j] == p;
                        assert(points@[j] == ((i % 8) as i32, (i / 8) as i32));
                        assert(false);
                    }
                }
            }
            assert(self@ =~= Self::outlined(old(self)@, x as int, y as int, color));
        }
    }

    /// An image of four nested square outlines along the diagonal, in
    /// colors of the cycle.
    pub fn draw_shape(shape: u32, color1: u32, color2: u32, color3: u32, color4: u32) -> (image:
        Image)
        requires
            shape < 2,
            color1 < 16,
            color2 < 16,
            color3 < 16,
            color4 < 16,
        ensures
            image@ == Self::shape_of(
                shape,
                Color::cycle_colors()[color1 as int],
                Color::cycle_colors()[color2 as int],
                Color::cycle_colors()[color3 as int],
                Color::cycle_colors()[color4 as int],
            ),
    {
        let color1 = Color::color_cycle(color1);
        let color2 = Color::color_cycle(color2);
        let color3 = Color::color_cycle(color3);
        let color4 = Color::color_cycle(color4);
        let mut image = Image::default();
        let start: i32 = if shape == 0 {
            5
        } else {
            6
        };
        image.draw_outline(start, start, color1);
        image.draw_outline(start - 2, start - 2, color2);
        image.draw_outline(start - 4, start - 4, color3);
        image.draw_outline(start - 6, start - 6, color4);
        image
    }

    /// The number of columns after which a scrolling text starts over:
    /// eight for each character and eight more.
    pub open spec fn text_width(text: Seq<char>) -> int {
        (text.len() * 8 + 8) as int
    }

    /// An image of a text in a color of the cycle, scrolled `index` columns
    /// to the left, modulo the width of the text, from where it starts in
    /// the column right of the image.
    pub fn show_text(text: &str, index: u32, color: u32) -> (image: Image)
        requires
            Self::text_width(text@) <= 0x2000_0000,
            color < 16,
        ensures
            image@ == Self::of_bytes(
                rendered_text(
                    text@,
                    8 - index as int % Self::text_width(text@),
                    6,
                    Color::cycle_colors()[color as int].r,
                    Color::cycle_colors()[color as int].g,
                    Color::cycle_colors()[color as int].b,
                ),
            ),
    {
        let width: u32 = text.unicode_len() as u32 * 8 + 8;
        let index: i32 = (index % width) as i32;
        let color = Color::color_cycle(color);
        let bytes = render_text(text, 8 - index, 6, color);
        Image::from_bytes(bytes.as_slice())
    }
}

} // verus!
