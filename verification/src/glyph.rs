//! One character cell of a font, held as rows of characters.

use crate::text::{push_char, push_chars};
use vstd::prelude::*;

verus! {

/// The rendering of one character: rows of cells, all of one length.
#[derive(Debug)]
pub struct FigletGlyph {
    rows: Vec<Vec<char>>,
}

impl View for FigletGlyph {
    type V = Seq<Seq<char>>;

    /// The rows from top to bottom, each from left to right.
    closed spec fn view(&self) -> Seq<Seq<char>> {
        Seq::new(self.rows@.len(), |i: int| self.rows@[i]@)
    }
}

/// A row of `width` cells that all hold `fill`.
pub open spec fn filled_row(width: nat, fill: char) -> Seq<char> {
    Seq::new(width, |c: int| fill)
}

/// `height` rows of `width` cells that all hold `fill`.
pub open spec fn filled_rows(width: nat, height: nat, fill: char) -> Seq<Seq<char>> {
    Seq::new(height, |r: int| filled_row(width, fill))
}

/// True when every row is `width` cells long.
pub open spec fn rows_have_width(rows: Seq<Seq<char>>, width: nat) -> bool {
    forall|r: int| 0 <= r < rows.len() ==> (#[trigger] rows[r]).len() == width
}

/// What closes a row that is not the last of its glyph.
pub open spec fn row_end() -> Seq<char> {
    seq!['@', '\n']
}

/// What closes the last row of a glyph.
pub open spec fn glyph_end() -> Seq<char> {
    seq!['@', '@', '\n']
}

/// Row `i` of a glyph as it is written: its cells, then `@` and a line
/// break, with the `@` doubled on the last row.
pub open spec fn glyph_line(rows: Seq<Seq<char>>, i: int) -> Seq<char> {
    rows[i] + if i + 1 == rows.len() {
        glyph_end()
    } else {
        row_end()
    }
}

/// The written lines of a glyph, one for each row.
pub open spec fn glyph_lines(rows: Seq<Seq<char>>) -> Seq<Seq<char>> {
    Seq::new(rows.len(), |i: int| glyph_line(rows, i))
}

/// A glyph as it is written: its lines one after the other.
pub open spec fn glyph_text(rows: Seq<Seq<char>>) -> Seq<char> {
    glyph_lines(rows).flatten()
}

impl FigletGlyph {
    #[verifier::type_invariant]
    spec fn rows_agree(self) -> bool {
        forall|i: int, j: int|
            0 <= i < self.rows@.len() && 0 <= j < self.rows@.len() ==> (#[trigger] self.rows@[i])@.len()
                == (#[trigger] self.rows@[j])@.len()
    }

    /// A glyph of `height` rows of `width` cells, every cell set to `blank`.
    pub fn new(width: u32, height: u32, blank: char) -> (glyph: FigletGlyph)
        ensures
            glyph@ == filled_rows(width as nat, height as nat, blank),
    {
        let mut rows: Vec<Vec<char>> = Vec::new();
        let mut r: u32 = 0;
        while r < height
            invariant
                r <= height,
                rows@.len() == r,
                forall|i: int| 0 <= i < r ==> (#[trigger] rows@[i])@ == filled_row(width as nat, blank),
            decreases height - r,
        {
            let mut row: Vec<char> = Vec::new();
            let mut c: u32 = 0;
            while c < width
                invariant
                    c <= width,
                    row@ == filled_row(c as nat, blank),
                decreases width - c,
            {
                row.push(blank);
                c = c + 1;
            }
            rows.push(row);
            r = r + 1;
        }
        FigletGlyph { rows }
    }

    /// Sets the cell in row `row` and column `col` to `c`.
    pub fn set_cell(&mut self, row: usize, col: usize, c: char)
        requires
            row < old(self)@.len(),
            col < old(self)@[row as int].len(),
        ensures
            final(self)@ == old(self)@.update(row as int, old(self)@[row as int].update(col as int, c)),
        no_unwind
    {
        proof {
            use_type_invariant(&*self);
        }
        write_cell(&mut self.rows, row, col, c);
        assert(self@ =~= old(self)@.update(row as int, old(self)@[row as int].update(col as int, c)));
    }

    /// The glyph as FIGlet text: each row followed by `@` and a line break,
    /// the last row by `@@` and a line break.
    pub fn output(&self) -> (text: String)
        ensures
            text@ == glyph_text(self@),
    {
        let mut out = String::new();
        let n = self.rows.len();
        let ghost lines = glyph_lines(self@);
        let mut i: usize = 0;
        while i < n
            invariant
                n == self.rows@.len(),
                lines == glyph_lines(self@),
                i <= n,
                out@ == lines.take(i as int).flatten(),
            decreases n - i,
        {
            push_chars(&mut out, &self.rows[i]);
            push_char(&mut out, '@');
            if i == n - 1 {
                push_char(&mut out, '@');
            }
            push_char(&mut out, '\n');
            proof {
                lines.take(i as int).lemma_flatten_push(lines[i as int]);
                assert(lines.take(i + 1) =~= lines.take(i as int).push(lines[i as int]));
                assert(out@ =~= lines.take(i as int).flatten() + glyph_line(self@, i as int));
            }
            i = i + 1;
        }
        assert(lines.take(n as int) =~= lines);
        out
    }

    /// The rows from top to bottom, each as a string.
    pub fn rows(&self) -> (texts: Vec<String>)
        ensures
            texts@.len() == self@.len(),
            forall|r: int| 0 <= r < self@.len() ==> (#[trigger] texts@[r])@ == self@[r],
    {
        let mut texts: Vec<String> = Vec::new();
        let n = self.rows.len();
        let mut i: usize = 0;
        while i < n
            invariant
                n == self.rows@.len(),
                i <= n,
                texts@.len() == i,
                forall|r: int| 0 <= r < i ==> (#[trigger] texts@[r])@ == self@[r],
            decreases n - i,
        {
            let mut text = String::new();
            push_chars(&mut text, &self.rows[i]);
            assert(text@ =~= self@[i as int]);
            texts.push(text);
            i = i + 1;
        }
        texts
    }
}

impl Clone for FigletGlyph {
    /// A glyph with the same rows.
    fn clone(&self) -> (copy: FigletGlyph)
        ensures
            copy@ == self@,
    {
        proof {
            use_type_invariant(self);
        }
        let mut rows: Vec<Vec<char>> = Vec::new();
        let n = self.rows.len();
        let mut i: usize = 0;
        while i < n
            invariant
                n == self.rows@.len(),
                i <= n,
                rows@.len() == i,
                forall|r: int| 0 <= r < i ==> (#[trigger] rows@[r])@ == self.rows@[r]@,
            decreases n - i,
        {
            rows.push(copy_row(&self.rows[i]));
            i = i + 1;
        }
        let copy = FigletGlyph { rows };
        assert(copy@ =~= self@);
        copy
    }
}

/// A row with the same cells.
fn copy_row(row: &Vec<char>) -> (copy: Vec<char>)
    ensures
        copy@ == row@,
{
    let mut copy: Vec<char> = Vec::new();
    let n = row.len();
    let mut i: usize = 0;
    while i < n
        invariant
            n == row@.len(),
            i <= n,
            copy@ == row@.take(i as int),
        decreases n - i,
    {
        copy.push(row[i]);
        assert(row@.take(i + 1) =~= row@.take(i as int).push(row@[i as int]));
        i = i + 1;
    }
    assert(row@.take(n as int) =~= row@);
    copy
}

/// Overwrites one cell in a grid of rows and leaves every length as it was.
fn write_cell(rows: &mut Vec<Vec<char>>, row: usize, col: usize, c: char)
    requires
        row < old(rows)@.len(),
        col < old(rows)@[row as int]@.len(),
    ensures
        final(rows)@.len() == old(rows)@.len(),
        final(rows)@[row as int]@ == old(rows)@[row as int]@.update(col as int, c),
        forall|i: int| 0 <= i < old(rows)@.len() && i != row ==> final(rows)@[i] == old(rows)@[i],
        forall|i: int| 0 <= i < old(rows)@.len() ==> (#[trigger] final(rows)@[i])@.len() == old(rows)@[i]@.len(),
    no_unwind
{
    rows[row][col] = c;
}

} // verus!
