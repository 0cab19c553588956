//! Receiving images byte by byte and showing them line by line.

use vstd::prelude::*;
use crate::image::{Color, Image, BYTES, SIDE};

verus! {

/// The byte that starts a new image; no byte of an image has this value.
pub const FRAME_START: u8 = 0xFF;

/// The image that comes in over a serial line, as far as it has come.
pub struct Receiver {
    image: Image,
    next_pos: usize,
}

impl Receiver {
    #[verifier::type_invariant]
    spec fn within_image(self) -> bool {
        self.next_pos <= BYTES
    }

    /// The pixels received so far, and what the others held before.
    pub closed spec fn pixels(self) -> Seq<Color> {
        self.image@
    }

    /// The number of bytes of the image that have come in: the position of
    /// the next one.
    pub closed spec fn position(self) -> int {
        self.next_pos as int
    }

    /// The position of the next byte, which never passes the end of the
    /// image.
    pub fn next_position(&self) -> (position: usize)
        ensures
            position == self.position(),
            position <= BYTES,
    {
        proof {
            use_type_invariant(self);
        }
        self.next_pos
    }

    /// A receiver that waits for the first byte of a black image.
    pub fn new() -> (receiver: Receiver)
        ensures
            receiver.pixels() == Image::black(),
            receiver.position() == 0,
    {
        Receiver { image: Image::default(), next_pos: 0 }
    }

    /// Takes one byte from the line.
    ///
    /// The start byte moves the position back to the first byte of the
    /// image. Any other byte is dropped when the image is complete, and goes
    /// to the next position otherwise; the byte that completes the image
    /// hands it out and leaves a black image in its place.
    pub fn receive_byte(&mut self, b: u8) -> (complete: Option<Image>)
        ensures
            b == FRAME_START ==> {
                &&& complete.is_none()
                &&& final(self).position() == 0
                &&& final(self).pixels() == old(self).pixels()
            },
            b != FRAME_START && old(self).position() == BYTES ==> {
                &&& complete.is_none()
                &&& final(self).position() == BYTES
                &&& final(self).pixels() == old(self).pixels()
            },
            b != FRAME_START && old(self).position() < BYTES - 1 ==> {
                &&& complete.is_none()
                &&& final(self).position() == old(self).position() + 1
                &&& final(self).pixels() == Self::stored(
                    old(self).pixels(),
                    old(self).position(),
                    b,
                )
            },
            b != FRAME_START && old(self).position() == BYTES - 1 ==> {
                &&& complete.is_some()
                &&& complete.unwrap()@ == Self::stored(
                    old(self).pixels(),
                    old(self).position(),
                    b,
                )
                &&& final(self).position() == BYTES
                &&& final(self).pixels() == Image::black()
            },
    {
        proof {
            use_type_invariant(&*self);
        }
        if b == FRAME_START {
            self.next_pos = 0;
            return None;
        }
        if self.next_pos == BYTES {
            return None;
        }
        let mut image = Image::default();
        std::mem::swap(&mut image, &mut self.image);
        image.set_byte(self.next_pos, b);
        if self.next_pos + 1 == BYTES {
            self.next_pos = BYTES;
            Some(image)
        } else {
            std::mem::swap(&mut image, &mut self.image);
            self.next_pos = self.next_pos + 1;
            None
        }
    }

    /// `pixels` with byte `position` of the image set to `b`.
    pub open spec fn stored(pixels: Seq<Color>, position: int, b: u8) -> Seq<Color> {
        pixels.update(position / 3, pixels[position / 3].with_part(position % 3, b))
    }
}

/// The image on the matrix and the line of it that is lit next.
pub struct Display {
    current: Image,
    next_line: usize,
}

impl Display {
    #[verifier::type_invariant]
    spec fn within_image(self) -> bool {
        self.next_line < SIDE
    }

    /// The pixels of the image that is shown.
    pub closed spec fn pixels(self) -> Seq<Color> {
        self.current@
    }

    /// The line that is lit next.
    pub closed spec fn line(self) -> int {
        self.next_line as int
    }

    /// The line that is lit next, which is one of the eight.
    pub fn next_line(&self) -> (line: usize)
        ensures
            line == self.line(),
            line < SIDE,
    {
        proof {
            use_type_invariant(self);
        }
        self.next_line
    }

    /// A display that shows a black image, starting with its first line.
    pub fn new() -> (display: Display)
        ensures
            display.pixels() == Image::black(),
            display.line() == 0,
    {
        Display { current: Image::default(), next_line: 0 }
    }

    /// The image that is shown.
    pub fn current(&self) -> (image: &Image)
        ensures
            image@ == self.pixels(),
    {
        &self.current
    }

    /// Picks the line to light now and moves on to the one after it, the
    /// first following the last. Before the first line, an image that waits
    /// in `next_image` takes the place of the one shown.
    pub fn show_line(&mut self, next_image: &mut Option<Image>) -> (line: usize)
        ensures
            line == old(self).line(),
            line < SIDE,
            final(self).line() == (old(self).line() + 1) % 8,
            old(self).line() == 0 && old(next_image).is_some() ==> {
                &&& final(self).pixels() == old(next_image).unwrap()@
                &&& final(next_image).is_none()
            },
            !(old(self).line() == 0 && old(next_image).is_some()) ==> {
                &&& final(self).pixels() == old(self).pixels()
                &&& *final(next_image) == *old(next_image)
            },
    {
        proof {
            use_type_invariant(&*self);
        }
        if self.next_line == 0 {
            match next_image.take() {
                Some(image) => {
                    self.current = image;
                },
                None => {},
            }
        }
        let line = self.next_line;
        self.next_line = (self.next_line + 1) % 8;
        line
    }
}

} // verus!
