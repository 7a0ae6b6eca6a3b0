//! A whole font: ninety-six glyphs of one size, and its FIGlet text.

use crate::glyph::{filled_rows, glyph_text, rows_have_width, FigletGlyph};
use crate::text::{decimal, push_char, push_decimal};
use vstd::prelude::*;
use vstd::string::StringExecFns;

verus! {

/// Glyph cells in one row of a font sheet.
pub const GRID_COLUMNS: u32 = 16;

/// Rows of glyph cells in a font sheet.
pub const GRID_ROWS: u32 = 6;

/// Glyphs in a font: one for each cell of the sheet.
pub const GLYPH_COUNT: usize = 96;

/// Copies of the first glyph that are written after the glyphs themselves.
pub const PADDING_GLYPHS: usize = 6;

/// What a font is, apart from how it is stored.
pub struct FontView {
    /// Cells in each row of each glyph.
    pub char_width: nat,
    /// Rows in each glyph.
    pub char_height: nat,
    /// The glyphs in sheet order, each as rows of cells.
    pub glyphs: Seq<Seq<Seq<char>>>,
}

impl FontView {
    /// True when there are ninety-six glyphs, each of `char_height` rows of
    /// `char_width` cells.
    pub open spec fn well_formed(self) -> bool {
        &&& self.glyphs.len() == GLYPH_COUNT
        &&& forall|g: int|
            0 <= g < self.glyphs.len() ==> (#[trigger] self.glyphs[g]).len() == self.char_height
                && rows_have_width(self.glyphs[g], self.char_width)
    }

    /// This font with the cell in row `row` and column `col` of glyph
    /// `glyph` set to `c`.
    pub open spec fn with_cell(self, glyph: int, row: int, col: int, c: char) -> FontView {
        FontView {
            glyphs: self.glyphs.update(
                glyph,
                self.glyphs[glyph].update(row, self.glyphs[glyph][row].update(col, c)),
            ),
            ..self
        }
    }
}

/// The font of the given cell size in which every cell holds `fill`.
pub open spec fn filled_font(char_width: nat, char_height: nat, fill: char) -> FontView {
    FontView {
        char_width,
        char_height,
        glyphs: Seq::new(GLYPH_COUNT as nat, |g: int| filled_rows(char_width, char_height, fill)),
    }
}

/// The first line of a font file. Both the height and the baseline are the
/// number of rows of a glyph; the numbers after them are fixed.
pub open spec fn header_line(char_height: nat) -> Seq<char> {
    "flf2a$ "@ + decimal(char_height) + seq![' '] + decimal(char_height) + " 20 -1 2\n"@
}

/// The comment that follows the header: one line, then an empty one.
pub open spec fn banner() -> Seq<char> {
    "Font automatically generated from rust crate png-to-figlet-font\n\n"@
}

/// The glyph that block `k` of the file shows: glyph `k` itself for the
/// first ninety-six blocks, the first glyph for those after them.
pub open spec fn block_glyph(k: int) -> int {
    if k < GLYPH_COUNT {
        k
    } else {
        0
    }
}

/// The blocks of a font file in the order in which they are written.
pub open spec fn font_blocks(font: FontView) -> Seq<Seq<char>> {
    Seq::new((GLYPH_COUNT + PADDING_GLYPHS) as nat, |k: int| glyph_text(font.glyphs[block_glyph(k)]))
}

/// A font as FIGlet text: header, comment, then the blocks.
pub open spec fn font_text(font: FontView) -> Seq<char> {
    header_line(font.char_height) + banner() + font_blocks(font).flatten()
}

/// Ninety-six glyphs of one size.
#[derive(Debug)]
pub struct FigletFont {
    char_width: u32,
    char_height: u32,
    glyphs: Vec<FigletGlyph>,
}

impl View for FigletFont {
    type V = FontView;

    closed spec fn view(&self) -> FontView {
        FontView {
            char_width: self.char_width as nat,
            char_height: self.char_height as nat,
            glyphs: Seq::new(self.glyphs@.len(), |g: int| self.glyphs@[g]@),
        }
    }
}

impl FigletFont {
    #[verifier::type_invariant]
    spec fn glyphs_fit(self) -> bool {
        &&& self.glyphs@.len() == GLYPH_COUNT
        &&& forall|g: int|
            0 <= g < self.glyphs@.len() ==> (#[trigger] self.glyphs@[g])@.len() == self.char_height
                && rows_have_width(self.glyphs@[g]@, self.char_width as nat)
    }

    /// A font of ninety-six glyphs of `char_height` rows of `char_width`
    /// cells, every cell set to `blank`.
    pub fn new(char_width: u32, char_height: u32, blank: char) -> (font: FigletFont)
        ensures
            font@ == filled_font(char_width as nat, char_height as nat, blank),
            font@.well_formed(),
    {
        let blank_glyph = FigletGlyph::new(char_width, char_height, blank);
        let mut glyphs: Vec<FigletGlyph> = Vec::new();
        let mut g: usize = 0;
        while g < GLYPH_COUNT
            invariant
                g <= GLYPH_COUNT,
                glyphs@.len() == g,
                blank_glyph@ == filled_rows(char_width as nat, char_height as nat, blank),
                forall|i: int| 0 <= i < g ==> (#[trigger] glyphs@[i])@ == blank_glyph@,
            decreases GLYPH_COUNT - g,
        {
            glyphs.push(blank_glyph.clone());
            g = g + 1;
        }
        let font = FigletFont { char_width, char_height, glyphs };
        assert(font@.glyphs =~= filled_font(char_width as nat, char_height as nat, blank).glyphs);
        font
    }

    /// Cells in each row of each glyph.
    pub fn char_width(&self) -> (w: u32)
        ensures
            w == self@.char_width,
    {
        self.char_width
    }

    /// Rows in each glyph.
    pub fn char_height(&self) -> (h: u32)
        ensures
            h == self@.char_height,
    {
        self.char_height
    }

    /// The glyphs in sheet order.
    pub fn glyphs(&self) -> (glyphs: &Vec<FigletGlyph>)
        ensures
            self@.well_formed(),
            glyphs@.len() == GLYPH_COUNT,
            forall|g: int| 0 <= g < GLYPH_COUNT ==> (#[trigger] glyphs@[g])@ == self@.glyphs[g],
    {
        proof {
            use_type_invariant(self);
        }
        &self.glyphs
    }

    /// Sets the cell in row `row` and column `col` of glyph `glyph` to `c`.
    pub fn set_cell(&mut self, glyph: usize, row: usize, col: usize, c: char)
        requires
            glyph < GLYPH_COUNT,
            row < old(self)@.char_height,
            col < old(self)@.char_width,
        ensures
            final(self)@ == old(self)@.with_cell(glyph as int, row as int, col as int, c),
            final(self)@.well_formed(),
    {
        proof {
            use_type_invariant(&*self);
        }
        write_glyph_cell(&mut self.glyphs, glyph, row, col, c);
        assert(self@.glyphs =~= old(self)@.with_cell(glyph as int, row as int, col as int, c).glyphs);
    }

    /// The font as FIGlet text: the header line, the comment, the
    /// ninety-six glyphs in order, and six more copies of the first glyph.
    pub fn output(&self) -> (text: String)
        ensures
            self@.well_formed(),
            text@ == font_text(self@),
    {
        proof {
            use_type_invariant(self);
        }
        let mut out = String::new();
        out.append("flf2a$ ");
        push_decimal(&mut out, self.char_height);
        push_char(&mut out, ' ');
        push_decimal(&mut out, self.char_height);
        out.append(" 20 -1 2\n");
        out.append("Font automatically generated from rust crate png-to-figlet-font\n\n");
        let ghost head = header_line(self@.char_height) + banner();
        let ghost blocks = font_blocks(self@);
        assert(out@ =~= head + blocks.take(0).flatten());
        let mut k: usize = 0;
        while k < GLYPH_COUNT + PADDING_GLYPHS
            invariant
                self.glyphs@.len() == GLYPH_COUNT,
                blocks == font_blocks(self@),
                k <= GLYPH_COUNT + PADDING_GLYPHS,
                out@ == head + blocks.take(k as int).flatten(),
            decreases GLYPH_COUNT + PADDING_GLYPHS - k,
        {
            let shown = if k < GLYPH_COUNT {
                k
            } else {
                0
            };
            let block = self.glyphs[shown].output();
            out.append(block.as_str());
            proof {
                blocks.take(k as int).lemma_flatten_push(blocks[k as int]);
                assert(blocks.take(k + 1) =~= blocks.take(k as int).push(blocks[k as int]));
                assert(out@ =~= head + blocks.take(k + 1).flatten());
            }
            k = k + 1;
        }
        assert(blocks.take((GLYPH_COUNT + PADDING_GLYPHS) as int) =~= blocks);
        out
    }
}

impl Clone for FigletFont {
    /// A font with the same size and the same glyphs.
    fn clone(&self) -> (copy: FigletFont)
        ensures
            copy@ == self@,
    {
        proof {
            use_type_invariant(self);
        }
        let mut glyphs: Vec<FigletGlyph> = Vec::new();
        let mut g: usize = 0;
        while g < GLYPH_COUNT
            invariant
                self.glyphs@.len() == GLYPH_COUNT,
                g <= GLYPH_COUNT,
                glyphs@.len() == g,
                forall|i: int| 0 <= i < g ==> (#[trigger] glyphs@[i])@ == self.glyphs@[i]@,
            decreases GLYPH_COUNT - g,
        {
            glyphs.push(self.glyphs[g].clone());
            g = g + 1;
        }
        let copy = FigletFont { char_width: self.char_width, char_height: self.char_height, glyphs };
        assert(copy@.glyphs =~= self@.glyphs);
        copy
    }
}

/// Sets one cell of one glyph in a list of glyphs and leaves the rest as it
/// was.
fn write_glyph_cell(glyphs: &mut Vec<FigletGlyph>, glyph: usize, row: usize, col: usize, c: char)
    requires
        glyph < old(glyphs)@.len(),
        row < old(glyphs)@[glyph as int]@.len(),
        col < old(glyphs)@[glyph as int]@[row as int].len(),
    ensures
        final(glyphs)@.len() == old(glyphs)@.len(),
        final(glyphs)@[glyph as int]@ == old(glyphs)@[glyph as int]@.update(
            row as int,
            old(glyphs)@[glyph as int]@[row as int].update(col as int, c),
        ),
        forall|g: int| 0 <= g < old(glyphs)@.len() && g != glyph ==> final(glyphs)@[g] == old(glyphs)@[g],
    no_unwind
{
    glyphs[glyph].set_cell(row, col, c);
}

} // verus!
