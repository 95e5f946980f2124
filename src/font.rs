use noto_sans_mono_bitmap::{get_raster, FontWeight, RasterHeight};
use vstd::prelude::*;

verus! {

/// Height in pixels of every glyph raster drawn by the console (font size 16).
pub const CHAR_RASTER_HEIGHT: usize = 16;

/// Width in pixels of every glyph raster of the regular weight at size 16.
pub const CHAR_RASTER_WIDTH: usize = 9;

/// Drawn in place of a character that the font does not cover.
pub const BACKUP_CHAR: char = '\u{FFFD}';

/// A rasterized glyph: `rows[r][c]` is the intensity (0 to 255) of the pixel
/// in row `r`, column `c`.
pub struct Glyph {
    pub width: usize,
    pub rows: &'static [&'static [u8]],
}

/// Width and intensity rows of a glyph.
pub type GlyphModel = (nat, Seq<Seq<u8>>);

impl Glyph {
    pub open spec fn view(&self) -> GlyphModel {
        (self.width as nat, self.rows@.map_values(|r: &'static [u8]| r@))
    }
}

/// A glyph of the console's fixed cell size: as wide as the cell and exactly
/// one cell high, with every row as wide as the glyph.
pub open spec fn glyph_shape_ok(g: GlyphModel) -> bool {
    &&& g.0 == CHAR_RASTER_WIDTH
    &&& g.1.len() == CHAR_RASTER_HEIGHT
    &&& forall|r: int| 0 <= r < g.1.len() ==> #[trigger] g.1[r].len() == g.0
}

pub open spec fn glyph_model_of(r: Option<Glyph>) -> Option<GlyphModel> {
    match r {
        Some(g) => Some(g@),
        None => None,
    }
}

/// The raster that the font holds for a character, if it has one.
pub uninterp spec fn raster_of(c: char) -> Option<GlyphModel>;

/// The glyph drawn for `c`: its own raster, or else the backup character's.
pub open spec fn glyph_of(c: char) -> GlyphModel {
    match raster_of(c) {
        Some(g) => g,
        None => match raster_of(BACKUP_CHAR) {
            Some(b) => b,
            None => (0, Seq::empty()),
        },
    }
}

/// Relies on noto_sans_mono_bitmap::get_raster (regular weight, size 16): the
/// raster depends on the character alone; every raster it hands out has
/// `RASTER_HEIGHT` (16) rows of `RASTER_WIDTH` (9) bytes, and `width()` is
/// `RASTER_WIDTH`; with the `unicode-specials` feature the replacement
/// character U+FFFD is covered.
#[verifier::external_body]
fn lookup_raster(c: char) -> (r: Option<Glyph>)
    ensures
        glyph_model_of(r) == raster_of(c),
        r matches Some(g) ==> glyph_shape_ok(g@),
        c == BACKUP_CHAR ==> r.is_some(),
{
    get_raster(c, FontWeight::Regular, RasterHeight::Size16).map(
        |g| Glyph { width: g.width(), rows: g.raster() },
    )
}

/// Returns the raster of `c`, or the raster of the backup character where the
/// font has none for `c`.
pub fn get_char_raster(c: char) -> (r: Glyph)
    ensures
        r@ == glyph_of(c),
        glyph_shape_ok(r@),
{
    match lookup_raster(c) {
        Some(g) => g,
        None => {
            let b = lookup_raster(BACKUP_CHAR);
            match b {
                Some(g) => g,
                None => {
                    proof {
                        assert(false);
                    }
                    Glyph { width: 0, rows: &[] }
                },
            }
        },
    }
}

} // verus!
