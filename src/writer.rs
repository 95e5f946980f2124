use crate::font::{get_char_raster, glyph_shape_ok, Glyph, CHAR_RASTER_HEIGHT, CHAR_RASTER_WIDTH};
use crate::model::{
    blit_row, blit_rows, carriage_returned, cleared, cursor_ok, drew_glyph, made_room, newlined,
    pixel_byte, printed, put_pixel, rendered, scrolled, shift_up, spaced, wrote, Geometry, Screen,
    TextColor, BORDER_PADDING, ESCAPE_MARKER, LETTER_SPACING, LINE_HEIGHT, TAB_SIZE,
};
use vstd::prelude::*;
use vstd::string::StrSliceExecFns;

verus! {

/// Bounds that follow from a geometry fitting its buffer.
proof fn lemma_layout_bounds(g: Geometry, len: nat)
    requires
        g.fits(len),
    ensures
        g.height <= len,
        g.stride <= len,
        g.width <= len,
        0 <= g.bytes_per_line() <= len,
        g.bytes_per_line() >= 1,
        g.stride * LINE_HEIGHT <= len,
        g.height + LINE_HEIGHT <= len,
        g.width + CHAR_RASTER_WIDTH + BORDER_PADDING <= len,
{
    let s = g.stride as int;
    let h = g.height as int;
    let b = g.bytes_per_pixel as int;
    let l = LINE_HEIGHT as int;
    assert(s * h * b >= h) by (nonlinear_arith)
        requires
            s >= 1,
            b >= 1,
            h >= 0,
    ;
    assert(s * h * b >= s) by (nonlinear_arith)
        requires
            s >= 0,
            b >= 1,
            h >= 1,
    ;
    assert(0 <= s * l * b <= s * h * b) by (nonlinear_arith)
        requires
            s >= 0,
            b >= 1,
            h >= l,
            l >= 0,
    ;
    assert(s * l <= s * l * b) by (nonlinear_arith)
        requires
            s >= 0,
            b >= 1,
            l >= 0,
    ;
    assert(s * h * b >= 11 * h) by (nonlinear_arith)
        requires
            s >= 11,
            b >= 1,
            h >= 0,
    ;
    assert(s * h * b >= 36 * s) by (nonlinear_arith)
        requires
            s >= 0,
            b >= 1,
            h >= 36,
    ;
    assert(s * l * b >= 1) by (nonlinear_arith)
        requires
            s >= 1,
            b >= 1,
            l >= 1,
    ;
}

/// A visible pixel lies inside the buffer.
proof fn lemma_pixel_bounds(g: Geometry, len: nat, x: int, y: int)
    requires
        g.fits(len),
        0 <= x < g.width,
        0 <= y < g.height,
    ensures
        0 <= y * g.stride <= y * g.stride + x <= len,
        0 <= g.byte_offset(x, y),
        g.byte_offset(x, y) + g.bytes_per_pixel <= len,
{
    let s = g.stride as int;
    let h = g.height as int;
    let b = g.bytes_per_pixel as int;
    assert(0 <= y * s) by (nonlinear_arith)
        requires
            y >= 0,
            s >= 0,
    ;
    assert((y * s + x + 1) * b <= h * s * b) by (nonlinear_arith)
        requires
            0 <= x < s,
            0 <= y < h,
            b >= 1,
    ;
    assert(h * s * b == s * h * b) by (nonlinear_arith);
    assert((y * s + x + 1) * b == (y * s + x) * b + b) by (nonlinear_arith);
    assert(y * s + x <= (y * s + x) * b) by (nonlinear_arith)
        requires
            y * s + x >= 0,
            b >= 1,
    ;
}

/// Channel `k` of `color` scaled by `intensity / 255`.
fn scaled_channel(color: TextColor, k: usize, intensity: u8) -> (r: u8)
    requires
        k < 3,
    ensures
        r == pixel_byte(color, intensity, k as int),
{
    let c = color.channel_value(k);
    assert(0 <= (c as int) * (intensity as int) <= 255 * 255) by (nonlinear_arith)
        requires
            0 <= c <= 255,
            0 <= intensity <= 255,
    ;
    let scaled: u16 = c as u16 * intensity as u16 / 255;
    scaled as u8
}

/// Writes text into a pixel framebuffer, with line wrapping, scrolling and
/// color escapes.
pub struct FrameBufferWriter {
    framebuffer: &'static mut [u8],
    info: Geometry,
    x_pos: usize,
    y_pos: usize,
    current_color: TextColor,
}

impl FrameBufferWriter {
    pub closed spec fn view(&self) -> Screen {
        Screen {
            fb: self.framebuffer@,
            x: self.x_pos as int,
            y: self.y_pos as int,
            color: self.current_color,
        }
    }

    /// The geometry the writer was made with.
    pub closed spec fn geometry(&self) -> Geometry {
        self.info
    }

    spec fn layout_ok(&self) -> bool {
        self.info.fits(self.framebuffer@.len()) && self.framebuffer@.len() <= usize::MAX
    }

    /// The geometry fits the buffer and the cursor is within the padded area.
    pub closed spec fn wf(&self) -> bool {
        self.layout_ok() && cursor_ok(self@, self.info)
    }

    /// Creates a writer that owns `framebuffer`, laid out as `info` says, and
    /// blanks it.
    pub fn new(framebuffer: &'static mut [u8], info: Geometry) -> (r: Self)
        requires
            info.fits(framebuffer@.len()),
        ensures
            r.wf(),
            r.geometry() == info,
            r@ == cleared(
                Screen {
                    fb: old(framebuffer)@,
                    x: BORDER_PADDING as int,
                    y: BORDER_PADDING as int,
                    color: TextColor::Normal,
                },
            ),
    {
        // the buffer's length bounds every offset computed later
        let _len = framebuffer.len();
        let mut logger = FrameBufferWriter {
            framebuffer,
            info,
            x_pos: BORDER_PADDING,
            y_pos: BORDER_PADDING,
            current_color: TextColor::Normal,
        };
        proof {
            lemma_layout_bounds(info, logger.framebuffer@.len());
        }
        logger.clear();
        logger
    }

    /// Moves the cursor to the next line, scrolling when it leaves the screen.
    fn newline(&mut self)
        requires
            old(self).wf(),
        ensures
            final(self).framebuffer@.len() == old(self).framebuffer@.len(),
            final(self).wf(),
            final(self).info == old(self).info,
            final(self)@ == newlined(old(self)@, old(self).info),
    {
        proof {
            lemma_layout_bounds(self.info, self.framebuffer@.len());
        }
        self.y_pos = self.y_pos + LINE_HEIGHT;
        if self.y_pos >= self.height() {
            self.scroll_screen();
        }
        self.carriage_return();
    }

    /// Moves the cursor to the start of the current line.
    fn carriage_return(&mut self)
        ensures
            final(self).framebuffer@.len() == old(self).framebuffer@.len(),
            final(self).info == old(self).info,
            final(self)@ == carriage_returned(old(self)@),
    {
        self.x_pos = BORDER_PADDING;
    }

    /// Drops the top text line: every later byte moves up one line, the last
    /// line becomes zero, and the cursor moves up one line.
    fn scroll_screen(&mut self)
        requires
            old(self).layout_ok(),
            old(self).y_pos >= LINE_HEIGHT,
        ensures
            final(self).framebuffer@.len() == old(self).framebuffer@.len(),
            final(self).layout_ok(),
            final(self).info == old(self).info,
            final(self)@ == scrolled(old(self)@, old(self).info),
    {
        proof {
            lemma_layout_bounds(self.info, self.framebuffer@.len());
        }
        let ghost before = *self;
        let ghost old_fb = self.framebuffer@;
        let screen_size = self.framebuffer.len();
        let bytes_per_line = self.info.stride * LINE_HEIGHT * self.info.bytes_per_pixel;
        let last_line_start = screen_size - bytes_per_line;
        let mut i: usize = 0;
        while i < last_line_start
            invariant
                self.info == before.info,
                self.x_pos == before.x_pos,
                self.y_pos == before.y_pos,
                self.current_color == before.current_color,
                bytes_per_line == self.info.bytes_per_line(),
                last_line_start + bytes_per_line == screen_size,
                screen_size == old_fb.len(),
                self.framebuffer@.len() == screen_size,
                i <= last_line_start,
                forall|j: int| 0 <= j < i ==> self.framebuffer@[j] == old_fb[j + bytes_per_line],
                forall|j: int| i <= j < screen_size ==> self.framebuffer@[j] == old_fb[j],
            decreases last_line_start - i,
        {
            let b = self.framebuffer[i + bytes_per_line];
            self.framebuffer[i] = b;
            i = i + 1;
        }
        while i < screen_size
            invariant
                self.info == before.info,
                self.x_pos == before.x_pos,
                self.y_pos == before.y_pos,
                self.current_color == before.current_color,
                bytes_per_line == self.info.bytes_per_line(),
                last_line_start + bytes_per_line == screen_size,
                screen_size == old_fb.len(),
                self.framebuffer@.len() == screen_size,
                last_line_start <= i <= screen_size,
                forall|j: int|
                    0 <= j < last_line_start ==> self.framebuffer@[j] == old_fb[j + bytes_per_line],
                forall|j: int| last_line_start <= j < i ==> self.framebuffer@[j] == 0,
            decreases screen_size - i,
        {
            self.framebuffer[i] = 0;
            i = i + 1;
        }
        assert(self.framebuffer@ =~= shift_up(old_fb, self.info.bytes_per_line()));
        self.y_pos = self.y_pos - LINE_HEIGHT;
    }

    /// Erases all text on the screen and moves the cursor to the padded origin.
    pub fn clear(&mut self)
        requires
            old(self).wf(),
        ensures
            final(self)@.fb.len() == old(self)@.fb.len(),
            final(self).wf(),
            final(self).geometry() == old(self).geometry(),
            final(self)@ == cleared(old(self)@),
    {
        let ghost before = *self;
        self.x_pos = BORDER_PADDING;
        self.y_pos = BORDER_PADDING;
        let n = self.framebuffer.len();
        let mut i: usize = 0;
        while i < n
            invariant
                n == self.framebuffer@.len(),
                n == before.framebuffer@.len(),
                self.info == before.info,
                self.x_pos == BORDER_PADDING,
                self.y_pos == BORDER_PADDING,
                self.current_color == before.current_color,
                i <= n,
                forall|j: int| 0 <= j < i ==> self.framebuffer@[j] == 0,
            decreases n - i,
        {
            self.framebuffer[i] = 0;
            i = i + 1;
        }
        proof {
            lemma_layout_bounds(self.info, self.framebuffer@.len());
        }
        assert(self.framebuffer@ =~= Seq::new(n as nat, |i: int| 0u8));
    }

    /// Sets pixel `(x, y)` to the current color scaled by `intensity`.
    fn write_pixel(&mut self, x: usize, y: usize, intensity: u8)
        requires
            old(self).layout_ok(),
            x < old(self).info.width,
            y < old(self).info.height,
        ensures
            final(self).framebuffer@.len() == old(self).framebuffer@.len(),
            final(self).layout_ok(),
            final(self).info == old(self).info,
            final(self).x_pos == old(self).x_pos,
            final(self).y_pos == old(self).y_pos,
            final(self).current_color == old(self).current_color,
            final(self).framebuffer@ == put_pixel(
                old(self).framebuffer@,
                old(self).info,
                x as int,
                y as int,
                old(self).current_color,
                intensity,
            ),
    {
        proof {
            lemma_pixel_bounds(self.info, self.framebuffer@.len(), x as int, y as int);
        }
        let ghost before = *self;
        let pixel_offset = y * self.info.stride + x;
        let bytes_per_pixel = self.info.bytes_per_pixel;
        let byte_offset = pixel_offset * bytes_per_pixel;
        let mut k: usize = 0;
        while k < bytes_per_pixel
            invariant
                self.info == before.info,
                self.x_pos == before.x_pos,
                self.y_pos == before.y_pos,
                self.current_color == before.current_color,
                byte_offset == before.info.byte_offset(x as int, y as int),
                bytes_per_pixel == self.info.bytes_per_pixel,
                byte_offset + bytes_per_pixel <= self.framebuffer@.len(),
                self.framebuffer@.len() == before.framebuffer@.len(),
                self.layout_ok(),
                k <= bytes_per_pixel,
                forall|i: int|
                    0 <= i < self.framebuffer@.len() ==> self.framebuffer@[i] == (if byte_offset
                        <= i < byte_offset + k {
                        pixel_byte(self.current_color, intensity, i - byte_offset)
                    } else {
                        before.framebuffer@[i]
                    }),
            decreases bytes_per_pixel - k,
        {
            let v: u8 = if k < 3 {
                scaled_channel(self.current_color, k, intensity)
            } else {
                0
            };
            self.framebuffer[byte_offset + k] = v;
            k = k + 1;
        }
        assert(self.framebuffer@ =~= put_pixel(
            before.framebuffer@,
            self.info,
            x as int,
            y as int,
            self.current_color,
            intensity,
        ));
    }

    /// Draws `glyph` with its top left corner at the cursor and moves the
    /// cursor right past it.
    fn write_rendered_char(&mut self, glyph: Glyph)
        requires
            old(self).layout_ok(),
            glyph_shape_ok(glyph@),
            old(self).x_pos + CHAR_RASTER_WIDTH <= old(self).info.width,
            old(self).y_pos + CHAR_RASTER_HEIGHT <= old(self).info.height,
        ensures
            final(self).framebuffer@.len() == old(self).framebuffer@.len(),
            final(self).layout_ok(),
            final(self).info == old(self).info,
            final(self).y_pos == old(self).y_pos,
            final(self).current_color == old(self).current_color,
            final(self).x_pos == old(self).x_pos + glyph.width + LETTER_SPACING,
            final(self).framebuffer@ == blit_rows(
                old(self).framebuffer@,
                old(self).info,
                glyph@.1,
                old(self).x_pos as int,
                old(self).y_pos as int,
                old(self).current_color,
                glyph@.1.len(),
            ),
    {
        let ghost before = *self;
        let ghost rows = glyph@.1;
        let n_rows = glyph.rows.len();
        let mut r: usize = 0;
        while r < n_rows
            invariant
                self.layout_ok(),
                self.framebuffer@.len() == before.framebuffer@.len(),
                self.info == before.info,
                self.x_pos == before.x_pos,
                self.y_pos == before.y_pos,
                self.current_color == before.current_color,
                self.x_pos + CHAR_RASTER_WIDTH <= self.info.width,
                self.y_pos + CHAR_RASTER_HEIGHT <= self.info.height,
                glyph_shape_ok(glyph@),
                rows == glyph@.1,
                n_rows == rows.len(),
                r <= n_rows,
                self.framebuffer@ == blit_rows(
                    before.framebuffer@,
                    self.info,
                    rows,
                    self.x_pos as int,
                    self.y_pos as int,
                    self.current_color,
                    r as nat,
                ),
            decreases n_rows - r,
        {
            let row: &[u8] = glyph.rows[r];
            assert(row@ == rows[r as int]);
            let n_cols = row.len();
            let ghost start = self.framebuffer@;
            let mut c: usize = 0;
            while c < n_cols
                invariant
                    self.layout_ok(),
                    self.framebuffer@.len() == before.framebuffer@.len(),
                    self.info == before.info,
                    self.x_pos == before.x_pos,
                    self.y_pos == before.y_pos,
                    self.current_color == before.current_color,
                    self.x_pos + CHAR_RASTER_WIDTH <= self.info.width,
                    self.y_pos + CHAR_RASTER_HEIGHT <= self.info.height,
                    r < n_rows,
                    n_rows == CHAR_RASTER_HEIGHT,
                    row@ == rows[r as int],
                    n_cols == row@.len(),
                    n_cols == CHAR_RASTER_WIDTH,
                    c <= n_cols,
                    self.framebuffer@ == blit_row(
                        start,
                        self.info,
                        rows[r as int],
                        self.x_pos as int,
                        self.y_pos + r,
                        self.current_color,
                        c as nat,
                    ),
                decreases n_cols - c,
            {
                let intensity = row[c];
                if intensity > 0 {
                    let px = self.x_pos + c;
                    let py = self.y_pos + r;
                    self.write_pixel(px, py, intensity);
                }
                c = c + 1;
            }
            r = r + 1;
        }
        self.x_pos = self.x_pos + glyph.width + LETTER_SPACING;
    }

    /// Draws the glyph of `c` at the cursor, first moving to a new line where
    /// it would pass the right edge and scrolling where it would pass the
    /// bottom edge.
    fn write_glyph(&mut self, c: char)
        requires
            old(self).wf(),
        ensures
            final(self).framebuffer@.len() == old(self).framebuffer@.len(),
            final(self).wf(),
            final(self).info == old(self).info,
            final(self)@ == drew_glyph(old(self)@, old(self).info, c),
    {
        proof {
            lemma_layout_bounds(self.info, self.framebuffer@.len());
        }
        let ghost before = *self;
        let new_xpos = self.x_pos + CHAR_RASTER_WIDTH;
        if new_xpos >= self.width() {
            self.newline();
        }
        let new_ypos = self.y_pos + CHAR_RASTER_HEIGHT + BORDER_PADDING;
        if new_ypos >= self.height() {
            self.scroll_screen();
        }
        assert(self@ == made_room(before@, self.info));
        let glyph = get_char_raster(c);
        self.write_rendered_char(glyph);
    }

    /// Writes one character: `\n` starts a new line, `\r` returns to the
    /// start of the line, `\t` writes four spaces, anything else is drawn.
    pub fn write_char(&mut self, c: char)
        requires
            old(self).wf(),
        ensures
            final(self)@.fb.len() == old(self)@.fb.len(),
            final(self).wf(),
            final(self).geometry() == old(self).geometry(),
            final(self)@ == rendered(old(self)@, old(self).geometry(), c),
    {
        if c == '\n' {
            self.newline();
        } else if c == '\r' {
            self.carriage_return();
        } else if c == '\t' {
            let ghost before = *self;
            let mut i: usize = 0;
            while i < TAB_SIZE
                invariant
                    self.wf(),
                    self.framebuffer@.len() == before.framebuffer@.len(),
                    self.info == before.info,
                    i <= TAB_SIZE,
                    self@ == spaced(before@, self.info, i as nat),
                decreases TAB_SIZE - i,
            {
                self.write_glyph(' ');
                i = i + 1;
            }
        } else {
            self.write_glyph(c);
        }
    }

    /// Prints `text` with wrapping and scrolling; a backslash followed by `c`
    /// switches to the accent color, followed by `r` back to the normal
    /// color, followed by anything else writes the backslash alone.
    pub fn print(&mut self, text: &str)
        requires
            old(self).wf(),
        ensures
            final(self)@.fb.len() == old(self)@.fb.len(),
            final(self).wf(),
            final(self).geometry() == old(self).geometry(),
            final(self)@ == printed(old(self)@, old(self).geometry(), text@),
    {
        let ghost before = *self;
        let n = text.unicode_len();
        let mut i: usize = 0;
        assert(text@.skip(0) =~= text@);
        while i < n
            invariant
                self.wf(),
                self.framebuffer@.len() == before.framebuffer@.len(),
                self.info == before.info,
                n == text@.len(),
                i <= n,
                printed(before@, self.info, text@) == printed(self@, self.info, text@.skip(i as int)),
            decreases n - i,
        {
            let ghost rest = text@.skip(i as int);
            let c = text.get_char(i);
            assert(rest[0] == c);
            if c == ESCAPE_MARKER {
                if i + 1 < n {
                    let next = text.get_char(i + 1);
                    assert(rest[1] == next);
                    assert(rest.skip(2) =~= text@.skip(i + 2));
                    if next == 'c' {
                        self.current_color = TextColor::Accent;
                    } else if next == 'r' {
                        self.current_color = TextColor::Normal;
                    } else {
                        self.write_char(c);
                    }
                    i = i + 2;
                } else {
                    assert(text@.skip(i + 1).len() == 0);
                    i = i + 1;
                }
            } else {
                assert(rest.skip(1) =~= text@.skip(i + 1));
                self.write_char(c);
                i = i + 1;
            }
        }
    }

    /// Writes each character of `s` in turn, with no escapes.
    pub fn write_str(&mut self, s: &str)
        requires
            old(self).wf(),
        ensures
            final(self)@.fb.len() == old(self)@.fb.len(),
            final(self).wf(),
            final(self).geometry() == old(self).geometry(),
            final(self)@ == wrote(old(self)@, old(self).geometry(), s@),
    {
        let ghost before = *self;
        let n = s.unicode_len();
        let mut i: usize = 0;
        assert(s@.skip(0) =~= s@);
        while i < n
            invariant
                self.wf(),
                self.framebuffer@.len() == before.framebuffer@.len(),
                self.info == before.info,
                n == s@.len(),
                i <= n,
                wrote(before@, self.info, s@) == wrote(self@, self.info, s@.skip(i as int)),
            decreases n - i,
        {
            let c = s.get_char(i);
            assert(s@.skip(i as int).skip(1) =~= s@.skip(i + 1));
            self.write_char(c);
            i = i + 1;
        }
    }

    /// The cursor position `(x, y)` in pixels.
    pub fn cursor(&self) -> (r: (usize, usize))
        ensures
            r.0 == self@.x,
            r.1 == self@.y,
    {
        (self.x_pos, self.y_pos)
    }

    /// The color new glyphs are drawn in.
    pub fn color(&self) -> (r: TextColor)
        ensures
            r == self@.color,
    {
        self.current_color
    }

    /// The framebuffer's bytes.
    pub fn framebuffer(&self) -> (r: &[u8])
        ensures
            r@ == self@.fb,
    {
        self.framebuffer
    }

    /// Visible width in pixels.
    pub fn width(&self) -> (r: usize)
        ensures
            r == self.geometry().width,
    {
        self.info.width
    }

    /// Visible height in pixels.
    pub fn height(&self) -> (r: usize)
        ensures
            r == self.geometry().height,
    {
        self.info.height
    }
}

} // verus!
