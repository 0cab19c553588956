//! What the drawing of shapes and text takes from `embedded-graphics`.

use vstd::prelude::*;
use embedded_graphics::framebuffer::Framebuffer;
use embedded_graphics::geometry::{Point, Size};
use embedded_graphics::mono_font::MonoTextStyle;
use embedded_graphics::pixelcolor::raw::{BigEndian, RawU24};
use embedded_graphics::pixelcolor::{BinaryColor, Rgb888};
use embedded_graphics::primitives::{Primitive, PrimitiveStyle, Rectangle};
use embedded_graphics::text::Text;
use embedded_graphics::Drawable;
use ibm437::IBM437_8X8_REGULAR;
use crate::image::{Color, BYTES, SIDE};

verus! {

/// Whether the point `(px, py)` lies on the outline, one pixel wide, of the
/// rectangle whose top left corner is `(x, y)`.
pub open spec fn on_outline(x: int, y: int, width: int, height: int, px: int, py: int) -> bool {
    &&& x <= px < x + width
    &&& y <= py < y + height
    &&& (px == x || px == x + width - 1 || py == y || py == y + height - 1)
}

/// The 192 bytes of the 8 by 8 picture of a text: the text in the 8 by 8
/// font of code page 437 and in the color `(r, g, b)` on black, its first
/// line starting at column `x` with its baseline in row `y`; what falls
/// outside the picture is cut off. Each pixel gives its red, green and blue
/// byte, row by row.
pub uninterp spec fn rendered_text(text: Seq<char>, x: int, y: int, r: u8, g: u8, b: u8) -> Seq<u8>;

/// `Styled::pixels` of `embedded-graphics`, on a `Rectangle` with a stroke of
/// width 1 and no fill: the points that it draws, each as `(x, y)`. They are
/// the points of the rectangle that lie on its outline.
#[verifier::external_body]
pub(crate) fn outline_points(x: i32, y: i32, width: u32, height: u32) -> (points: Vec<(i32, i32)>)
    requires
        -0x10000 <= x <= 0x10000,
        -0x10000 <= y <= 0x10000,
        width <= 0x10000,
        height <= 0x10000,
    ensures
        forall|p: (i32, i32)| #[trigger]
            points@.contains(p) <==> on_outline(
                x as int,
                y as int,
                width as int,
                height as int,
                p.0 as int,
                p.1 as int,
            ),
{
    Rectangle::new(Point::new(x, y), Size::new(width, height))
        .into_styled(PrimitiveStyle::with_stroke(BinaryColor::On, 1))
        .pixels()
        .map(|pixel| (pixel.0.x, pixel.0.y))
        .collect()
}

/// `Text::draw` of `embedded-graphics`, with the font `IBM437_8X8_REGULAR` of
/// `ibm437` in the given color, onto a black `Framebuffer` of 8 by 8 pixels
/// of three bytes: the bytes of the framebuffer after the drawing.
#[verifier::external_body]
pub(crate) fn render_text(text: &str, x: i32, y: i32, color: Color) -> (bytes: Vec<u8>)
    requires
        -0x4000_0000 <= x <= 0x10000,
        -0x10000 <= y <= 0x10000,
        8 * text@.len() <= 0x2000_0000,
    ensures
        bytes@ == rendered_text(text@, x as int, y as int, color.r, color.g, color.b),
        bytes@.len() == BYTES,
{
    let mut target = Framebuffer::<Rgb888, RawU24, BigEndian, SIDE, SIDE, BYTES>::new();
    let style = MonoTextStyle::new(&IBM437_8X8_REGULAR, Rgb888::new(color.r, color.g, color.b));
    let _ = Text::new(text, Point::new(x, y), style).draw(&mut target);
    target.data().to_vec()
}

} // verus!
