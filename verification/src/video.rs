//! Frames as the plugin hands them over.

use vstd::prelude::*;
use vstd::slice::{slice_subrange, slice_to_vec};
use crate::state::{decodable, PixelFormat};

verus! {

/// One frame of video: `height` rows of `pitch` bytes, of which the first
/// `width` pixels are the picture.
#[derive(Debug)]
pub struct Frame {
    pub buffer: Vec<u8>,
    pub width: usize,
    pub height: usize,
    pub pitch: usize,
    pub pixel_format: PixelFormat,
}

/// The mathematical content of a [`Frame`].
pub ghost struct FrameView {
    pub buffer: Seq<u8>,
    pub width: usize,
    pub height: usize,
    pub pitch: usize,
    pub pixel_format: PixelFormat,
}

impl View for Frame {
    type V = FrameView;

    open spec fn view(&self) -> FrameView {
        FrameView {
            buffer: self.buffer@,
            width: self.width,
            height: self.height,
            pitch: self.pitch,
            pixel_format: self.pixel_format,
        }
    }
}

/// The frame that a plugin's call delivers, if it delivers one: none where
/// the plugin passes no data, which repeats the frame before, and none
/// where the data is shorter than `height` rows of `pitch` bytes.
pub open spec fn delivered(
    data: Option<Seq<u8>>,
    width: u32,
    height: u32,
    pitch: usize,
    pixel_format: PixelFormat,
) -> Option<FrameView> {
    match data {
        Some(bytes) => if height * pitch <= bytes.len() {
            Some(
                FrameView {
                    buffer: bytes.take(height * pitch),
                    width: width as usize,
                    height: height as usize,
                    pitch,
                    pixel_format,
                },
            )
        } else {
            None
        },
        None => None,
    }
}

/// The bytes that a plugin's call passes, if it passes any.
pub open spec fn data_view(data: Option<&[u8]>) -> Option<Seq<u8>> {
    match data {
        Some(bytes) => Some(bytes@),
        None => None,
    }
}

impl Frame {
    /// The frame without pixels.
    pub fn empty() -> (r: Frame)
        ensures
            r@ == (FrameView {
                buffer: seq![],
                width: 0,
                height: 0,
                pitch: 0,
                pixel_format: PixelFormat::ARGB8888,
            }),
    {
        Frame {
            buffer: Vec::new(),
            width: 0,
            height: 0,
            pitch: 0,
            pixel_format: PixelFormat::ARGB8888,
        }
    }

    /// Copies the frame that a plugin's call delivers.
    pub fn from_raw(
        data: Option<&[u8]>,
        width: u32,
        height: u32,
        pitch: usize,
        pixel_format: PixelFormat,
    ) -> (r: Option<Frame>)
        ensures
            match r {
                Some(frame) => delivered(data_view(data), width, height, pitch, pixel_format)
                    == Some(frame@),
                None => delivered(data_view(data), width, height, pitch, pixel_format) is None,
            },
    {
        let bytes = match data {
            Some(bytes) => bytes,
            None => {
                return None;
            },
        };
        let rows = height as usize;
        let total = bytes.len();
        let fits = if pitch == 0 || rows == 0 {
            true
        } else {
            rows <= total / pitch
        };
        if !fits {
            assert(height * pitch > bytes@.len()) by (nonlinear_arith)
                requires
                    pitch > 0,
                    height > bytes@.len() as int / pitch as int,
            ;
            return None;
        }
        assert(height * pitch <= bytes@.len()) by (nonlinear_arith)
            requires
                pitch == 0 || height == 0 || (pitch > 0 && height <= bytes@.len() as int / pitch as int),
        ;
        assert(rows * pitch == height * pitch);
        let size = rows * pitch;
        let buffer = slice_to_vec(slice_subrange(bytes, 0, size));
        Some(Frame { buffer, width: width as usize, height: rows, pitch, pixel_format })
    }
}

/// One pixel: red, green, blue and alpha, eight bits each.
#[derive(Clone, Copy, Debug, PartialEq, Eq, Structural)]
pub struct Pixel {
    pub r: u8,
    pub g: u8,
    pub b: u8,
    pub a: u8,
}

/// How many bytes a pixel of this format takes.
pub open spec fn bytes_per_pixel(pixel_format: PixelFormat) -> int {
    match pixel_format {
        PixelFormat::ARGB8888 => 4,
        _ => 2,
    }
}

/// A colour channel of `bits` bits widened to eight bits: the value times
/// 255 over the channel's largest value `max`, rounded to the nearest
/// number.
pub open spec fn widened(value: int, max: int) -> int {
    (2 * value * 255 + max) / (2 * max)
}

/// The word that two bytes make in the byte order given.
pub open spec fn word16(first: u8, second: u8, little_endian: bool) -> int {
    if little_endian {
        first + 256 * second
    } else {
        256 * first + second
    }
}

impl FrameView {
    /// How many whole rows the buffer holds.
    pub open spec fn rows(self) -> int {
        if self.pitch > 0 {
            self.buffer.len() as int / self.pitch as int
        } else {
            0
        }
    }

    /// Whether the frame can be decoded: its format is one that the runtime
    /// decodes, and a row has room for `width` pixels.
    pub open spec fn decodes(self) -> bool {
        &&& decodable(self.pixel_format)
        &&& self.pitch > 0
        &&& bytes_per_pixel(self.pixel_format) * self.width <= self.pitch
    }

    /// The pixel in column `x` of row `y`. The words of the buffer are in
    /// the byte order of the machine that the plugin runs on.
    pub open spec fn pixel(self, x: int, y: int, little_endian: bool) -> Pixel {
        let at = y * self.pitch + x * bytes_per_pixel(self.pixel_format);
        match self.pixel_format {
            PixelFormat::ARGB8888 => if little_endian {
                Pixel {
                    r: self.buffer[at + 2],
                    g: self.buffer[at + 1],
                    b: self.buffer[at],
                    a: self.buffer[at + 3],
                }
            } else {
                Pixel {
                    r: self.buffer[at + 1],
                    g: self.buffer[at + 2],
                    b: self.buffer[at + 3],
                    a: self.buffer[at],
                }
            },
            _ => {
                let word = word16(self.buffer[at], self.buffer[at + 1], little_endian);
                Pixel {
                    r: widened(word / 2048, 31) as u8,
                    g: widened((word / 32) % 64, 63) as u8,
                    b: widened(word % 32, 31) as u8,
                    a: 0,
                }
            },
        }
    }

    /// The pixels of row `y`, left to right.
    pub open spec fn row(self, y: int, little_endian: bool) -> Seq<Pixel> {
        Seq::new(self.width as nat, |x: int| self.pixel(x, y, little_endian))
    }

    /// The pixels of the first `rows` rows, row by row.
    pub open spec fn pixels_of_rows(self, rows: int, little_endian: bool) -> Seq<Pixel>
        decreases rows,
    {
        if rows <= 0 {
            seq![]
        } else {
            self.pixels_of_rows(rows - 1, little_endian) + self.row(rows - 1, little_endian)
        }
    }

    /// The pixels of the frame, row by row.
    pub open spec fn pixels(self, little_endian: bool) -> Seq<Pixel> {
        self.pixels_of_rows(self.rows(), little_endian)
    }
}

/// Pixels as packed bytes: red, green, blue for each.
pub open spec fn packed_rgb888(pixels: Seq<Pixel>) -> Seq<u8> {
    Seq::new(
        3 * pixels.len(),
        |i: int|
            if i % 3 == 0 {
                pixels[i / 3].r
            } else if i % 3 == 1 {
                pixels[i / 3].g
            } else {
                pixels[i / 3].b
            },
    )
}

/// A pixel as one word: alpha in the highest byte, then red, green, blue.
pub open spec fn argb32(pixel: Pixel) -> u32 {
    (pixel.a as int * 0x1000000 + pixel.r as int * 0x10000 + pixel.g as int * 0x100
        + pixel.b as int) as u32
}

/// Pixels as packed words.
pub open spec fn packed_argb32(pixels: Seq<Pixel>) -> Seq<u32> {
    Seq::new(pixels.len(), |i: int| argb32(pixels[i]))
}

fn widen(value: u32, max: u32) -> (r: u8)
    requires
        value <= max,
        max == 31 || max == 63,
    ensures
        r == widened(value as int, max as int),
{
    let scaled: u32 = (2 * value * 255 + max) / (2 * max);
    assert(scaled <= 255) by (nonlinear_arith)
        requires
            scaled == (2 * value * 255 + max) / (2 * max),
            value <= max,
            max == 31 || max == 63,
    ;
    scaled as u8
}

impl Frame {
    /// Whether the frame can be decoded.
    pub fn decodes(&self) -> (r: bool)
        ensures
            r == self@.decodes(),
    {
        let bpp: usize = match self.pixel_format {
            PixelFormat::ARGB8888 => 4,
            PixelFormat::RGB565 => 2,
            PixelFormat::ARGB1555 => {
                return false;
            },
        };
        self.pitch > 0 && self.width <= self.pitch / bpp
    }

    /// The pixels of the frame, row by row; `None` exactly where the frame
    /// cannot be decoded. `little_endian` says in which byte order the
    /// machine keeps its words.
    pub fn pixels(&self, little_endian: bool) -> (r: Option<Vec<Pixel>>)
        ensures
            match r {
                Some(pixels) => self@.decodes() && pixels@ == self@.pixels(little_endian),
                None => !self@.decodes(),
            },
    {
        if !self.decodes() {
            return None;
        }
        let wide = match self.pixel_format {
            PixelFormat::ARGB8888 => true,
            _ => false,
        };
        let bpp: usize = if wide { 4 } else { 2 };
        let total = self.buffer.len();
        let rows = total / self.pitch;
        let mut out: Vec<Pixel> = Vec::new();
        let mut y: usize = 0;
        while y < rows
            invariant
                y <= rows,
                total == self.buffer@.len(),
                self@.decodes(),
                rows == self@.rows(),
                bpp == bytes_per_pixel(self.pixel_format),
                wide == (self.pixel_format == PixelFormat::ARGB8888),
                out@ == self@.pixels_of_rows(y as int, little_endian),
            decreases rows - y,
        {
            let ghost done = out@;
            let mut x: usize = 0;
            assert(self@.row(y as int, little_endian).take(0) =~= Seq::<Pixel>::empty());
            assert(y * self.pitch + self.pitch <= self.buffer@.len()) by (nonlinear_arith)
                requires
                    y + 1 <= rows,
                    rows == self.buffer@.len() as int / self.pitch as int,
                    self.pitch > 0,
            ;
            let base = y * self.pitch;
            while x < self.width
                invariant
                    x <= self.width,
                    y < rows,
                    total == self.buffer@.len(),
                    self@.decodes(),
                    bpp == bytes_per_pixel(self.pixel_format),
                    wide == (self.pixel_format == PixelFormat::ARGB8888),
                    base == y * self.pitch,
                    base + self.pitch <= self.buffer@.len(),
                    out@ == done + self@.row(y as int, little_endian).take(x as int),
                decreases self.width - x,
            {
                assert(x * bpp + bpp <= self.pitch && x * bpp >= 0) by (nonlinear_arith)
                    requires
                        0 <= x,
                        x + 1 <= self.width,
                        bpp * self.width <= self.pitch,
                        bpp > 0,
                ;
                let at = base + x * bpp;
                let pixel = if wide {
                    if little_endian {
                        Pixel {
                            r: self.buffer[at + 2],
                            g: self.buffer[at + 1],
                            b: self.buffer[at],
                            a: self.buffer[at + 3],
                        }
                    } else {
                        Pixel {
                            r: self.buffer[at + 1],
                            g: self.buffer[at + 2],
                            b: self.buffer[at + 3],
                            a: self.buffer[at],
                        }
                    }
                } else {
                    let first = self.buffer[at] as u32;
                    let second = self.buffer[at + 1] as u32;
                    let word: u32 = if little_endian {
                        first + 256 * second
                    } else {
                        256 * first + second
                    };
                    Pixel {
                        r: widen(word / 2048, 31),
                        g: widen((word / 32) % 64, 63),
                        b: widen(word % 32, 31),
                        a: 0,
                    }
                };
                assert(pixel == self@.pixel(x as int, y as int, little_endian));
                out.push(pixel);
                assert(out@ =~= done + self@.row(y as int, little_endian).take(x + 1));
                x += 1;
            }
            assert(self@.row(y as int, little_endian).take(self.width as int) =~= self@.row(
                y as int,
                little_endian,
            ));
            y += 1;
        }
        Some(out)
    }

    /// The frame as packed bytes, three to a pixel: red, green, blue.
    /// `None` exactly where the frame cannot be decoded.
    pub fn buffer_to_packed_rgb888(&self, little_endian: bool) -> (r: Option<Vec<u8>>)
        ensures
            match r {
                Some(bytes) => self@.decodes() && bytes@ == packed_rgb888(
                    self@.pixels(little_endian),
                ),
                None => !self@.decodes(),
            },
    {
        let pixels = match self.pixels(little_endian) {
            Some(pixels) => pixels,
            None => {
                return None;
            },
        };
        let mut out: Vec<u8> = Vec::new();
        let mut i: usize = 0;
        while i < pixels.len()
            invariant
                i <= pixels@.len(),
                out@ == packed_rgb888(pixels@.take(i as int)),
            decreases pixels@.len() - i,
        {
            let pixel = pixels[i];
            out.push(pixel.r);
            out.push(pixel.g);
            out.push(pixel.b);
            assert(out@ =~= packed_rgb888(pixels@.take(i + 1)));
            i += 1;
        }
        assert(pixels@.take(pixels@.len() as int) =~= pixels@);
        Some(out)
    }

    /// The frame as packed words, one to a pixel: alpha, red, green, blue
    /// from the highest byte down. `None` exactly where the frame cannot be
    /// decoded.
    pub fn buffer_to_packed_argb32(&self, little_endian: bool) -> (r: Option<Vec<u32>>)
        ensures
            match r {
                Some(words) => self@.decodes() && words@ == packed_argb32(
                    self@.pixels(little_endian),
                ),
                None => !self@.decodes(),
            },
    {
        let pixels = match self.pixels(little_endian) {
            Some(pixels) => pixels,
            None => {
                return None;
            },
        };
        let mut out: Vec<u32> = Vec::new();
        let mut i: usize = 0;
        while i < pixels.len()
            invariant
                i <= pixels@.len(),
                out@ == packed_argb32(pixels@.take(i as int)),
            decreases pixels@.len() - i,
        {
            let pixel = pixels[i];
            let word: u32 = pixel.a as u32 * 0x1000000 + pixel.r as u32 * 0x10000 + pixel.g as u32
                * 0x100 + pixel.b as u32;
            out.push(word);
            assert(out@ =~= packed_argb32(pixels@.take(i + 1)));
            i += 1;
        }
        assert(pixels@.take(pixels@.len() as int) =~= pixels@);
        Some(out)
    }
}

/// A decodable frame has a pixel for every column of every whole row.
pub proof fn lemma_pixel_count(frame: FrameView, rows: int, little_endian: bool)
    requires
        0 <= rows,
    ensures
        frame.pixels_of_rows(rows, little_endian).len() == rows * frame.width,
    decreases rows,
{
    if rows > 0 {
        lemma_pixel_count(frame, rows - 1, little_endian);
        assert(frame.row(rows - 1, little_endian).len() == frame.width);
        assert((rows - 1) * frame.width + frame.width == rows * frame.width) by (nonlinear_arith);
    } else {
        assert(rows * frame.width == 0) by (nonlinear_arith)
            requires
                rows == 0,
        ;
    }
}

} // verus!
