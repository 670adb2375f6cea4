//! Bitmap font: 8x8 glyphs, one byte per row, most significant bit leftmost.

use vstd::prelude::*;

verus! {

/// Glyph width in pixels.
pub const CHAR_W: usize = 8;
/// Glyph height in pixels.
pub const CHAR_H: usize = 8;

/// An all-blank glyph.
pub open spec fn blank_glyph() -> Seq<u8> {
    Seq::new(8, |i: int| 0u8)
}

/// A glyph table indexed by code point; characters past its end draw blank.
pub struct Font {
    glyphs: Vec<[u8; 8]>,
}

impl Font {
    /// The rows of the glyph of `c`.
    pub closed spec fn glyph_spec(&self, c: char) -> Seq<u8> {
        if 0 <= (c as int) < self.glyphs.len() {
            self.glyphs@[c as int]@
        } else {
            blank_glyph()
        }
    }

    /// A font whose glyph for code point `i` is `table[i]`.
    pub fn new(table: Vec<[u8; 8]>) -> (f: Font)
        ensures
            forall|c: char| #[trigger] f.glyph_spec(c) == if 0 <= (c as int) < table.len() {
                table@[c as int]@
            } else {
                blank_glyph()
            },
    {
        Font { glyphs: table }
    }

    /// A font in which every glyph is blank.
    pub fn blank() -> (f: Font)
        ensures
            forall|c: char| #[trigger] f.glyph_spec(c) == blank_glyph(),
    {
        Font { glyphs: Vec::new() }
    }

    /// The glyph of `c`.
    pub fn glyph(&self, c: char) -> (g: [u8; 8])
        ensures
            g@ == self.glyph_spec(c),
    {
        let i = c as u32 as usize;
        if i < self.glyphs.len() {
            self.glyphs[i]
        } else {
            let g = [0u8; 8];
            assert(g@ =~= blank_glyph());
            g
        }
    }
}

} // verus!
