use crate::font::{glyph_of, CHAR_RASTER_HEIGHT, CHAR_RASTER_WIDTH};
use vstd::prelude::*;

verus! {

/// Additional vertical space between lines.
pub const LINE_SPACING: usize = 2;

/// Additional horizontal space between characters.
pub const LETTER_SPACING: usize = 0;

/// Padding from the border, so that glyphs are not drawn against the edge.
pub const BORDER_PADDING: usize = 1;

/// Number of spaces that a tab stands for.
pub const TAB_SIZE: usize = 4;

/// Marker that starts a two-character color escape in printed text.
pub const ESCAPE_MARKER: char = '\\';

/// Height of one text line: a glyph cell and the spacing below it.
pub const LINE_HEIGHT: usize = CHAR_RASTER_HEIGHT + LINE_SPACING;

/// Layout of the framebuffer memory.
#[derive(Clone, Copy, Debug)]
pub struct Geometry {
    /// Visible width in pixels.
    pub width: usize,
    /// Visible height in pixels.
    pub height: usize,
    /// Pixels from the start of one scanline to the start of the next.
    pub stride: usize,
    /// Bytes that encode one pixel.
    pub bytes_per_pixel: usize,
}

impl Geometry {
    /// The geometry describes a buffer of `len` bytes that holds at least one
    /// glyph cell across and two text lines down.
    pub open spec fn fits(self, len: nat) -> bool {
        &&& self.bytes_per_pixel >= 1
        &&& self.width <= self.stride
        &&& self.stride * self.height * self.bytes_per_pixel <= len
        &&& self.width > BORDER_PADDING + CHAR_RASTER_WIDTH
        &&& self.height >= 2 * LINE_HEIGHT
    }

    /// Bytes of one text line.
    pub open spec fn bytes_per_line(self) -> int {
        self.stride * LINE_HEIGHT * self.bytes_per_pixel
    }

    /// Index of the first byte of pixel `(x, y)`.
    pub open spec fn byte_offset(self, x: int, y: int) -> int {
        (y * self.stride + x) * self.bytes_per_pixel
    }
}

/// The two colors text can be drawn in.
#[derive(Clone, Copy, Debug, PartialEq, Eq)]
pub enum TextColor {
    /// White, the default.
    Normal,
    /// Blue, selected by an escape.
    Accent,
}

impl TextColor {
    /// Channel `k` (0, 1 or 2) of the color.
    pub open spec fn channel(self, k: int) -> u8 {
        match self {
            TextColor::Normal => 255,
            TextColor::Accent => if k == 0 {
                255
            } else {
                0
            },
        }
    }

    pub fn channel_value(self, k: usize) -> (r: u8)
        requires
            k < 3,
        ensures
            r == self.channel(k as int),
    {
        match self {
            TextColor::Normal => 255,
            TextColor::Accent => if k == 0 {
                255
            } else {
                0
            },
        }
    }
}

/// Byte `k` of a pixel of color `color` drawn at `intensity`: each channel is
/// scaled by `intensity / 255`; bytes past the three channels are zero.
pub open spec fn pixel_byte(color: TextColor, intensity: u8, k: int) -> u8 {
    if k < 3 {
        (color.channel(k) as int * intensity as int / 255) as u8
    } else {
        0
    }
}

/// What the console shows and where it writes next.
pub struct Screen {
    pub fb: Seq<u8>,
    pub x: int,
    pub y: int,
    pub color: TextColor,
}

/// The cursor stays within the padded area, leaving room for the current line.
pub open spec fn cursor_ok(s: Screen, g: Geometry) -> bool {
    &&& BORDER_PADDING <= s.x <= g.width
    &&& BORDER_PADDING <= s.y < g.height
}

/// Every byte of `fb` moves `n` places towards the start; the last `n` bytes
/// become zero.
pub open spec fn shift_up(fb: Seq<u8>, n: int) -> Seq<u8> {
    Seq::new(fb.len(), |i: int| if i + n < fb.len() { fb[i + n] } else { 0u8 })
}

/// The screen after dropping its top text line.
pub open spec fn scrolled(s: Screen, g: Geometry) -> Screen {
    Screen { fb: shift_up(s.fb, g.bytes_per_line()), y: s.y - LINE_HEIGHT, ..s }
}

pub open spec fn carriage_returned(s: Screen) -> Screen {
    Screen { x: BORDER_PADDING as int, ..s }
}

/// The cursor moves one line down, scrolling when it leaves the screen, and to
/// the start of the line.
pub open spec fn newlined(s: Screen, g: Geometry) -> Screen {
    let t = Screen { y: s.y + LINE_HEIGHT, ..s };
    let u = if t.y >= g.height {
        scrolled(t, g)
    } else {
        t
    };
    carriage_returned(u)
}

/// The blank screen with the cursor at the padded origin.
pub open spec fn cleared(s: Screen) -> Screen {
    Screen {
        fb: Seq::new(s.fb.len(), |i: int| 0u8),
        x: BORDER_PADDING as int,
        y: BORDER_PADDING as int,
        ..s
    }
}

/// `fb` with pixel `(x, y)` set to `color` at `intensity`.
pub open spec fn put_pixel(
    fb: Seq<u8>,
    g: Geometry,
    x: int,
    y: int,
    color: TextColor,
    intensity: u8,
) -> Seq<u8> {
    let off = g.byte_offset(x, y);
    Seq::new(
        fb.len(),
        |i: int|
            if off <= i < off + g.bytes_per_pixel {
                pixel_byte(color, intensity, i - off)
            } else {
                fb[i]
            },
    )
}

/// `fb` with the first `n` pixels of `row` drawn from `(x, y)` rightwards;
/// pixels of intensity zero leave the buffer as it was.
pub open spec fn blit_row(
    fb: Seq<u8>,
    g: Geometry,
    row: Seq<u8>,
    x: int,
    y: int,
    color: TextColor,
    n: nat,
) -> Seq<u8>
    decreases n,
{
    if n == 0 {
        fb
    } else {
        let before = blit_row(fb, g, row, x, y, color, (n - 1) as nat);
        let v = row[n - 1];
        if v > 0 {
            put_pixel(before, g, x + n - 1, y, color, v)
        } else {
            before
        }
    }
}

/// `fb` with the first `n` rows of a raster drawn with its top left at `(x, y)`.
pub open spec fn blit_rows(
    fb: Seq<u8>,
    g: Geometry,
    rows: Seq<Seq<u8>>,
    x: int,
    y: int,
    color: TextColor,
    n: nat,
) -> Seq<u8>
    decreases n,
{
    if n == 0 {
        fb
    } else {
        let before = blit_rows(fb, g, rows, x, y, color, (n - 1) as nat);
        blit_row(before, g, rows[n - 1], x, y + n - 1, color, rows[n - 1].len())
    }
}

/// The screen ready for a glyph: on a new line where the glyph would pass the
/// right edge, scrolled where it would pass the bottom edge.
pub open spec fn made_room(s: Screen, g: Geometry) -> Screen {
    let s1 = if s.x + CHAR_RASTER_WIDTH >= g.width {
        newlined(s, g)
    } else {
        s
    };
    if s1.y + CHAR_RASTER_HEIGHT + BORDER_PADDING >= g.height {
        scrolled(s1, g)
    } else {
        s1
    }
}

/// The screen after drawing the glyph of `c` at the cursor.
pub open spec fn drew_glyph(s: Screen, g: Geometry, c: char) -> Screen {
    let t = made_room(s, g);
    let glyph = glyph_of(c);
    Screen {
        fb: blit_rows(t.fb, g, glyph.1, t.x, t.y, t.color, glyph.1.len()),
        x: t.x + glyph.0 + LETTER_SPACING,
        ..t
    }
}

/// The screen after `n` spaces.
pub open spec fn spaced(s: Screen, g: Geometry, n: nat) -> Screen
    decreases n,
{
    if n == 0 {
        s
    } else {
        drew_glyph(spaced(s, g, (n - 1) as nat), g, ' ')
    }
}

/// The screen after writing one character, control characters included.
pub open spec fn rendered(s: Screen, g: Geometry, c: char) -> Screen {
    if c == '\n' {
        newlined(s, g)
    } else if c == '\r' {
        carriage_returned(s)
    } else if c == '\t' {
        spaced(s, g, TAB_SIZE as nat)
    } else {
        drew_glyph(s, g, c)
    }
}

/// The screen after writing each character of `text` in turn, with no escapes.
pub open spec fn wrote(s: Screen, g: Geometry, text: Seq<char>) -> Screen
    decreases text.len(),
{
    if text.len() == 0 {
        s
    } else {
        wrote(rendered(s, g, text[0]), g, text.skip(1))
    }
}

/// The screen after printing `text`: a marker followed by `c` selects the
/// accent color, followed by `r` the normal one, followed by anything else
/// writes the marker alone; a marker at the end is dropped.
pub open spec fn printed(s: Screen, g: Geometry, text: Seq<char>) -> Screen
    decreases text.len(),
{
    if text.len() == 0 {
        s
    } else if text[0] == ESCAPE_MARKER {
        if text.len() == 1 {
            s
        } else if text[1] == 'c' {
            printed(Screen { color: TextColor::Accent, ..s }, g, text.skip(2))
        } else if text[1] == 'r' {
            printed(Screen { color: TextColor::Normal, ..s }, g, text.skip(2))
        } else {
            printed(rendered(s, g, ESCAPE_MARKER), g, text.skip(2))
        }
    } else {
        printed(rendered(s, g, text[0]), g, text.skip(1))
    }
}

} // verus!
