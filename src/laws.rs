use crate::font::{glyph_of, raster_of, GlyphModel, BACKUP_CHAR, CHAR_RASTER_HEIGHT, CHAR_RASTER_WIDTH};
use crate::model::{
    blit_rows, cleared, cursor_ok, made_room, newlined, printed, rendered, scrolled,
    shift_up, spaced, wrote, Geometry, Screen, TextColor, BORDER_PADDING, ESCAPE_MARKER,
    LETTER_SPACING, LINE_HEIGHT,
};
use vstd::prelude::*;

verus! {

/// Neither a line break, a carriage return nor a tab.
pub open spec fn is_drawn(c: char) -> bool {
    c != '\n' && c != '\r' && c != '\t'
}

/// A character with a raster of its own, drawn where it fits on the current
/// line and above the bottom edge, moves the cursor right by the raster's
/// width plus the letter spacing and leaves the line unchanged.
pub proof fn lemma_glyph_advances(s: Screen, g: Geometry, c: char, glyph: GlyphModel)
    requires
        is_drawn(c),
        raster_of(c) == Some(glyph),
        s.x + CHAR_RASTER_WIDTH < g.width,
        s.y + CHAR_RASTER_HEIGHT + BORDER_PADDING < g.height,
    ensures
        rendered(s, g, c).x == s.x + glyph.0 + LETTER_SPACING,
        rendered(s, g, c).y == s.y,
{
}

/// A character with no raster is drawn exactly as the backup character, and
/// the cursor advances by the backup raster's width where no wrap or scroll
/// comes first.
pub proof fn lemma_missing_glyph_uses_backup(s: Screen, g: Geometry, c: char, backup: GlyphModel)
    requires
        is_drawn(c),
        raster_of(c).is_none(),
        raster_of(BACKUP_CHAR) == Some(backup),
    ensures
        rendered(s, g, c) == rendered(s, g, BACKUP_CHAR),
        s.x + CHAR_RASTER_WIDTH < g.width && s.y + CHAR_RASTER_HEIGHT + BORDER_PADDING < g.height
            ==> rendered(s, g, c).x == s.x + backup.0 + LETTER_SPACING && rendered(s, g, c).y
            == s.y,
{
}

/// A line break moves the cursor to the padded start column; a carriage
/// return does so too and changes nothing else.
pub proof fn lemma_line_controls(s: Screen, g: Geometry)
    ensures
        rendered(s, g, '\n').x == BORDER_PADDING,
        rendered(s, g, '\r').x == BORDER_PADDING,
        rendered(s, g, '\r').y == s.y,
        rendered(s, g, '\r') == (Screen { x: BORDER_PADDING as int, ..s }),
{
}

/// A glyph that would pass the right edge is drawn after exactly one implicit
/// line break, at the start column of the new line.
pub proof fn lemma_wrap_before_glyph(s: Screen, g: Geometry, c: char)
    requires
        g.fits(s.fb.len()),
        cursor_ok(s, g),
        is_drawn(c),
        s.x + CHAR_RASTER_WIDTH >= g.width,
    ensures
        newlined(s, g).x + CHAR_RASTER_WIDTH < g.width,
        made_room(s, g) == newlined(s, g) || made_room(s, g) == scrolled(newlined(s, g), g),
        made_room(s, g).x == BORDER_PADDING,
        rendered(s, g, c).x == BORDER_PADDING + glyph_of(c).0 + LETTER_SPACING,
        rendered(s, g, c).fb == blit_rows(
            made_room(s, g).fb,
            g,
            glyph_of(c).1,
            BORDER_PADDING as int,
            made_room(s, g).y,
            s.color,
            glyph_of(c).1.len(),
        ),
{
}

/// A line break past the bottom edge scrolls: the top text line is dropped,
/// every later byte moves up by one line, the bottom line becomes zero, and
/// the cursor stays on the same screen row.
pub proof fn lemma_line_break_scrolls(s: Screen, g: Geometry)
    requires
        s.y + LINE_HEIGHT >= g.height,
    ensures
        newlined(s, g).fb == shift_up(s.fb, g.bytes_per_line()),
        newlined(s, g).fb.len() == s.fb.len(),
        forall|i: int|
            0 <= i < s.fb.len() - g.bytes_per_line() ==> newlined(s, g).fb[i] == s.fb[i
                + g.bytes_per_line()],
        forall|i: int|
            0 <= s.fb.len() - g.bytes_per_line() <= i < s.fb.len() ==> newlined(s, g).fb[i] == 0,
        newlined(s, g).y == s.y,
{
}

/// A backslash followed by `c` selects the accent color and one followed by
/// `r` the normal color; neither draws anything.
pub proof fn lemma_color_escapes(s: Screen, g: Geometry, rest: Seq<char>)
    ensures
        printed(s, g, seq![ESCAPE_MARKER, 'c'] + rest) == printed(
            Screen { color: TextColor::Accent, ..s },
            g,
            rest,
        ),
        printed(s, g, seq![ESCAPE_MARKER, 'r'] + rest) == printed(
            Screen { color: TextColor::Normal, ..s },
            g,
            rest,
        ),
{
    assert((seq![ESCAPE_MARKER, 'c'] + rest).skip(2) =~= rest);
    assert((seq![ESCAPE_MARKER, 'r'] + rest).skip(2) =~= rest);
}

/// Clearing zeroes every byte and puts the cursor at the padded origin.
pub proof fn lemma_clear_blanks(s: Screen)
    ensures
        cleared(s).fb.len() == s.fb.len(),
        forall|i: int| 0 <= i < s.fb.len() ==> cleared(s).fb[i] == 0,
        cleared(s).x == BORDER_PADDING,
        cleared(s).y == BORDER_PADDING,
{
}

/// Clearing twice leaves the same screen as clearing once.
pub proof fn lemma_clear_idempotent(s: Screen)
    ensures
        cleared(cleared(s)) == cleared(s),
{
    assert(cleared(cleared(s)).fb =~= cleared(s).fb);
}

/// Text without a backslash prints exactly as it writes.
pub proof fn lemma_print_without_escapes(s: Screen, g: Geometry, text: Seq<char>)
    requires
        forall|i: int| 0 <= i < text.len() ==> text[i] != ESCAPE_MARKER,
    ensures
        printed(s, g, text) == wrote(s, g, text),
    decreases text.len(),
{
    if text.len() > 0 {
        lemma_print_without_escapes(rendered(s, g, text[0]), g, text.skip(1));
    }
}

/// A tab is written, and printed, exactly as four spaces.
pub proof fn lemma_tab_is_four_spaces(s: Screen, g: Geometry)
    ensures
        rendered(s, g, '\t') == wrote(s, g, seq![' ', ' ', ' ', ' ']),
        printed(s, g, seq!['\t']) == printed(s, g, seq![' ', ' ', ' ', ' ']),
{
    let sp = seq![' ', ' ', ' ', ' '];
    assert(sp.skip(1) =~= seq![' ', ' ', ' ']);
    assert(sp.skip(1).skip(1) =~= seq![' ', ' ']);
    assert(sp.skip(1).skip(1).skip(1) =~= seq![' ']);
    assert(sp.skip(1).skip(1).skip(1).skip(1) =~= Seq::<char>::empty());
    reveal_with_fuel(spaced, 5);
    reveal_with_fuel(wrote, 5);
    assert(rendered(s, g, '\t') == wrote(s, g, sp));
    lemma_print_without_escapes(s, g, sp);
    lemma_print_without_escapes(s, g, seq!['\t']);
    assert(seq!['\t'].skip(1) =~= Seq::<char>::empty());
}

} // verus!
