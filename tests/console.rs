use fb_console::font::{get_char_raster, BACKUP_CHAR, CHAR_RASTER_HEIGHT, CHAR_RASTER_WIDTH};
use fb_console::model::{Geometry, TextColor};
use fb_console::writer::FrameBufferWriter;

const WIDTH: usize = 40;
const HEIGHT: usize = 40;
const STRIDE: usize = 48;
const BPP: usize = 4;
const LINE_BYTES: usize = STRIDE * 18 * BPP;

fn geometry() -> Geometry {
    Geometry { width: WIDTH, height: HEIGHT, stride: STRIDE, bytes_per_pixel: BPP }
}

fn writer() -> FrameBufferWriter {
    let memory: &'static mut [u8] = Box::leak(vec![7u8; STRIDE * HEIGHT * BPP].into_boxed_slice());
    FrameBufferWriter::new(memory, geometry())
}

fn pixel(w: &FrameBufferWriter, x: usize, y: usize) -> Vec<u8> {
    let off = (y * STRIDE + x) * BPP;
    w.framebuffer()[off..off + BPP].to_vec()
}

#[test]
fn new_blanks_buffer_and_homes_cursor() {
    let w = writer();
    assert!(w.framebuffer().iter().all(|b| *b == 0));
    assert_eq!(w.framebuffer().len(), STRIDE * HEIGHT * BPP);
    assert_eq!(w.cursor(), (1, 1));
    assert_eq!(w.color(), TextColor::Normal);
    assert_eq!(w.width(), WIDTH);
    assert_eq!(w.height(), HEIGHT);
}

#[test]
fn glyph_raster_has_cell_size() {
    let g = get_char_raster('A');
    assert_eq!(g.width, CHAR_RASTER_WIDTH);
    assert_eq!(g.rows.len(), CHAR_RASTER_HEIGHT);
    assert_eq!(g.rows[3], &[0u8, 0, 0, 165, 249, 15, 0, 0, 0][..]);
}

#[test]
fn glyph_advances_cursor_by_raster_width() {
    let mut w = writer();
    w.print("A");
    assert_eq!(w.cursor(), (1 + 9, 1));
    w.print("B");
    assert_eq!(w.cursor(), (1 + 18, 1));
}

#[test]
fn glyph_pixels_scale_color_by_intensity() {
    let mut w = writer();
    w.print("A");
    // row 3, column 3 of the raster of 'A' has intensity 165
    assert_eq!(pixel(&w, 1 + 3, 1 + 3), vec![165, 165, 165, 0]);
    // row 2, column 3 has intensity 4
    assert_eq!(pixel(&w, 1 + 3, 1 + 2), vec![4, 4, 4, 0]);
    // intensity 0 leaves the pixel untouched
    assert_eq!(pixel(&w, 1, 1), vec![0, 0, 0, 0]);
}

#[test]
fn missing_glyph_draws_backup() {
    let mut a = writer();
    a.print("\u{e9}");
    let mut b = writer();
    b.write_char(BACKUP_CHAR);
    assert_eq!(a.framebuffer(), b.framebuffer());
    assert_eq!(a.cursor(), (1 + 9, 1));
    let mut c = writer();
    c.print("A");
    assert_ne!(a.framebuffer(), c.framebuffer());
}

#[test]
fn newline_and_carriage_return() {
    let mut w = writer();
    w.print("AB\n");
    assert_eq!(w.cursor(), (1, 19));
    w.print("A\r");
    assert_eq!(w.cursor(), (1, 19));
    let before = w.framebuffer().to_vec();
    w.print("\r");
    assert_eq!(w.framebuffer(), &before[..]);
    assert_eq!(w.cursor(), (1, 19));
}

#[test]
fn wrap_forces_one_newline() {
    let mut w = writer();
    w.print("AAAA");
    assert_eq!(w.cursor(), (37, 1));
    w.print("A");
    // drawn at the start of the next line
    assert_eq!(w.cursor(), (1 + 9, 19));
    assert_eq!(pixel(&w, 1 + 3, 19 + 3), vec![165, 165, 165, 0]);
}

#[test]
fn newline_past_bottom_scrolls() {
    let mut w = writer();
    w.print("A\nB\n");
    assert_eq!(w.cursor(), (1, 37));
    let before = w.framebuffer().to_vec();
    w.print("\n");
    assert_eq!(w.cursor(), (1, 37));
    let after = w.framebuffer();
    let len = before.len();
    for i in 0..len - LINE_BYTES {
        assert_eq!(after[i], before[i + LINE_BYTES]);
    }
    assert!(after[len - LINE_BYTES..].iter().all(|b| *b == 0));
    assert_ne!(&after[..LINE_BYTES], &before[..LINE_BYTES]);
}

#[test]
fn glyph_past_bottom_scrolls_first() {
    let mut w = writer();
    w.print("\n\n");
    assert_eq!(w.cursor(), (1, 37));
    w.print("A");
    assert_eq!(w.cursor(), (10, 19));
    assert_eq!(pixel(&w, 1 + 3, 19 + 3), vec![165, 165, 165, 0]);
}

#[test]
fn color_escapes() {
    let mut w = writer();
    w.print("\\cA\\rB");
    // no backslash, `c` or `r` drawn: two glyphs only
    assert_eq!(w.cursor(), (1 + 18, 1));
    assert_eq!(pixel(&w, 1 + 3, 1 + 3), vec![165, 0, 0, 0]);
    assert_eq!(pixel(&w, 10 + 3, 1 + 3)[1], pixel(&w, 10 + 3, 1 + 3)[0]);
    assert_eq!(w.color(), TextColor::Normal);
    let mut plain = writer();
    plain.print("AB");
    assert_ne!(w.framebuffer(), plain.framebuffer());
    w.print("\\c");
    assert_eq!(w.color(), TextColor::Accent);
}

#[test]
fn unknown_escape_writes_marker_only() {
    let mut a = writer();
    a.print("\\x");
    let mut b = writer();
    b.write_char('\\');
    assert_eq!(a.framebuffer(), b.framebuffer());
    assert_eq!(a.cursor(), (10, 1));
}

#[test]
fn trailing_marker_is_dropped() {
    let mut w = writer();
    w.print("\\");
    assert_eq!(w.cursor(), (1, 1));
    assert!(w.framebuffer().iter().all(|b| *b == 0));
}

#[test]
fn write_str_ignores_escapes() {
    let mut w = writer();
    w.write_str("\\c");
    assert_eq!(w.cursor(), (19, 1));
    assert_eq!(w.color(), TextColor::Normal);
}

#[test]
fn clear_blanks_and_is_idempotent() {
    let mut w = writer();
    w.print("\\cAB\nC");
    w.clear();
    assert!(w.framebuffer().iter().all(|b| *b == 0));
    assert_eq!(w.cursor(), (1, 1));
    let once = w.framebuffer().to_vec();
    w.clear();
    assert_eq!(w.framebuffer(), &once[..]);
    assert_eq!(w.cursor(), (1, 1));
}

#[test]
fn tab_is_four_spaces() {
    let mut a = writer();
    a.print("A\tB");
    let mut b = writer();
    b.print("A    B");
    assert_eq!(a.framebuffer(), b.framebuffer());
    assert_eq!(a.cursor(), b.cursor());
    assert_eq!(a.cursor(), (19, 19));
}
