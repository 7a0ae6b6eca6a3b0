//! Where things stand in the text of a font: laws about `glyph_text` and
//! `font_text`, position by position.

use crate::font::{banner, block_glyph, font_blocks, font_text, header_line, FontView, GLYPH_COUNT, PADDING_GLYPHS};
use crate::glyph::{glyph_line, glyph_lines, glyph_text, rows_have_width};
use vstd::prelude::*;

verus! {

/// The length of the text of a glyph of `height` rows of `width` cells:
/// each row takes its cells, an `@` and a line break, and the last row one
/// `@` more.
pub open spec fn glyph_text_len(width: nat, height: nat) -> nat {
    if height == 0 {
        0
    } else {
        height * (width + 2) + 1
    }
}

/// In the concatenation of pieces that are all `len` long, piece `k` fills
/// the positions from `k * len` up to `(k + 1) * len`.
pub proof fn lemma_flatten_uniform<A>(pieces: Seq<Seq<A>>, len: nat, k: int, j: int)
    requires
        forall|i: int| 0 <= i < pieces.len() ==> (#[trigger] pieces[i]).len() == len,
        0 <= k < pieces.len(),
        0 <= j < len,
    ensures
        pieces.flatten().len() == pieces.len() * len,
        0 <= k * len + j < pieces.flatten().len(),
        pieces.flatten()[k * len + j] == pieces[k][j],
    decreases pieces.len(),
{
    let init = pieces.drop_last();
    let last = pieces.last();
    assert(pieces =~= init.push(last));
    init.lemma_flatten_push(last);
    lemma_flatten_uniform_len(init, len);
    assert(pieces.len() * len == init.len() * len + len) by (nonlinear_arith)
        requires
            pieces.len() == init.len() + 1,
    ;
    if k < init.len() {
        lemma_flatten_uniform(init, len, k, j);
    } else {
        assert(k * len == init.len() * len) by (nonlinear_arith)
            requires
                k == init.len(),
        ;
    }
}

/// The concatenation of `n` pieces that are all `len` long is `n * len`
/// long.
pub proof fn lemma_flatten_uniform_len<A>(pieces: Seq<Seq<A>>, len: nat)
    requires
        forall|i: int| 0 <= i < pieces.len() ==> (#[trigger] pieces[i]).len() == len,
    ensures
        pieces.flatten().len() == pieces.len() * len,
    decreases pieces.len(),
{
    if pieces.len() == 0 {
        assert(pieces.len() * len == 0) by (nonlinear_arith)
            requires
                pieces.len() == 0,
        ;
    } else {
        let init = pieces.drop_last();
        let last = pieces.last();
        assert(pieces =~= init.push(last));
        init.lemma_flatten_push(last);
        lemma_flatten_uniform_len(init, len);
        assert(pieces.len() * len == init.len() * len + len) by (nonlinear_arith)
            requires
                pieces.len() == init.len() + 1,
        ;
    }
}

/// Position `j` of line `r` of a glyph stands in the glyph's text at
/// `r * (width + 2) + j`.
proof fn lemma_glyph_text_line(rows: Seq<Seq<char>>, width: nat, r: int, j: int)
    requires
        rows_have_width(rows, width),
        0 <= r < rows.len(),
        0 <= j < glyph_line(rows, r).len(),
    ensures
        glyph_text(rows).len() == glyph_text_len(width, rows.len()),
        0 <= r * (width + 2) + j < glyph_text(rows).len(),
        glyph_text(rows)[r * (width + 2) + j] == glyph_line(rows, r)[j],
{
    let lines = glyph_lines(rows);
    let body = lines.drop_last();
    let last = lines.last();
    let stride = width + 2;
    assert(lines =~= body.push(last));
    body.lemma_flatten_push(last);
    assert forall|i: int| 0 <= i < body.len() implies (#[trigger] body[i]).len() == stride by {
        assert(body[i] == glyph_line(rows, i));
    }
    lemma_flatten_uniform_len(body, stride);
    assert(last == glyph_line(rows, rows.len() - 1));
    assert(last.len() == stride + 1);
    assert(rows.len() * stride == body.len() * stride + stride) by (nonlinear_arith)
        requires
            rows.len() == body.len() + 1,
    ;
    if r < body.len() {
        lemma_flatten_uniform(body, stride, r, j);
    } else {
        assert(r * stride == body.len() * stride) by (nonlinear_arith)
            requires
                r == body.len(),
        ;
    }
}

/// The text of a glyph is as long as its size says: nothing for a glyph
/// without rows, else `width + 2` for each row and one more.
pub proof fn lemma_glyph_text_len(rows: Seq<Seq<char>>, width: nat)
    requires
        rows_have_width(rows, width),
    ensures
        glyph_text(rows).len() == glyph_text_len(width, rows.len()),
{
    if rows.len() == 0 {
        assert(glyph_lines(rows) =~= Seq::<Seq<char>>::empty());
    } else {
        lemma_glyph_text_line(rows, width, 0, 0);
    }
}

/// The cells of a glyph stand in its text row after row: cell `c` of row
/// `r` at `r * (width + 2) + c`.
pub proof fn lemma_glyph_text_cell(rows: Seq<Seq<char>>, width: nat, r: int, c: int)
    requires
        rows_have_width(rows, width),
        0 <= r < rows.len(),
        0 <= c < width,
    ensures
        0 <= r * (width + 2) + c < glyph_text(rows).len(),
        glyph_text(rows)[r * (width + 2) + c] == rows[r][c],
{
    lemma_glyph_text_line(rows, width, r, c);
}

/// Every row of a glyph is followed by `@`. After that comes a line break,
/// except on the last row: there a second `@` comes first, and its line
/// break ends the glyph's text.
pub proof fn lemma_glyph_text_sentinels(rows: Seq<Seq<char>>, width: nat, r: int)
    requires
        rows_have_width(rows, width),
        0 <= r < rows.len(),
    ensures
        ({
            let text = glyph_text(rows);
            let end = r * (width + 2) + width;
            &&& 0 <= end && end + 1 < text.len()
            &&& text[end] == '@'
            &&& r + 1 < rows.len() ==> text[end + 1] == '\n'
            &&& r + 1 == rows.len() ==> text[end + 1] == '@' && text[end + 2] == '\n' && text.len() == end + 3
        }),
{
    let text = glyph_text(rows);
    let end = r * (width + 2) + width;
    lemma_glyph_text_line(rows, width, r, width as int);
    lemma_glyph_text_line(rows, width, r, width as int + 1);
    if r + 1 == rows.len() {
        lemma_glyph_text_line(rows, width, r, width as int + 2);
        assert(rows.len() * (width + 2) == r * (width + 2) + (width + 2)) by (nonlinear_arith)
            requires
                rows.len() == r + 1,
        ;
    }
}

/// What stands before the blocks of a font's text: the header line and
/// the comment.
pub open spec fn font_head(font: FontView) -> Seq<char> {
    header_line(font.char_height) + banner()
}

/// The text of a font is its head followed by one hundred and two blocks
/// of one length, and block `k` is the text of glyph `k`, or of the first
/// glyph where `k` is ninety-six or more. So the glyphs appear in sheet
/// order and the last six blocks repeat the first.
pub proof fn lemma_font_text_blocks(font: FontView, k: int)
    requires
        font.well_formed(),
        0 <= k < GLYPH_COUNT + PADDING_GLYPHS,
    ensures
        ({
            let text = font_text(font);
            let head = font_head(font);
            let size = glyph_text_len(font.char_width, font.char_height);
            let start = head.len() + k * size;
            &&& text.len() == head.len() + (GLYPH_COUNT + PADDING_GLYPHS) * size
            &&& text.subrange(0, head.len() as int) == head
            &&& head.len() <= start && start + size <= text.len()
            &&& text.subrange(start, start + size) == glyph_text(font.glyphs[block_glyph(k)])
            &&& k >= GLYPH_COUNT ==> text.subrange(start, start + size) == text.subrange(
                head.len() as int,
                (head.len() + size) as int,
            )
        }),
{
    let text = font_text(font);
    let head = font_head(font);
    let size = glyph_text_len(font.char_width, font.char_height);
    assert(text.subrange(0, head.len() as int) =~= head);
    lemma_block_position(font, k);
    lemma_block_position(font, 0);
    assert(0 * size == 0) by (nonlinear_arith);
}

/// Block `k` of a font's text starts `k` block lengths after the head.
proof fn lemma_block_position(font: FontView, k: int)
    requires
        font.well_formed(),
        0 <= k < GLYPH_COUNT + PADDING_GLYPHS,
    ensures
        ({
            let text = font_text(font);
            let head = font_head(font);
            let size = glyph_text_len(font.char_width, font.char_height);
            let start = head.len() + k * size;
            &&& text.len() == head.len() + (GLYPH_COUNT + PADDING_GLYPHS) * size
            &&& head.len() <= start && start + size <= text.len()
            &&& text.subrange(start, start + size) == glyph_text(font.glyphs[block_glyph(k)])
        }),
{
    let text = font_text(font);
    let head = font_head(font);
    let size = glyph_text_len(font.char_width, font.char_height);
    let start = head.len() + k * size;
    let blocks = font_blocks(font);
    let count = (GLYPH_COUNT + PADDING_GLYPHS) as int;
    assert forall|i: int| 0 <= i < blocks.len() implies (#[trigger] blocks[i]).len() == size by {
        lemma_glyph_text_len(font.glyphs[block_glyph(i)], font.char_width);
    }
    lemma_flatten_uniform_len(blocks, size);
    assert(0 <= k * size && k * size + size <= count * size) by (nonlinear_arith)
        requires
            0 <= k < count,
            0 <= size,
    ;
    assert forall|j: int| 0 <= j < size implies text.subrange(start, start + size)[j] == blocks[k][j] by {
        lemma_flatten_uniform(blocks, size, k, j);
    }
    assert(text.subrange(start, start + size) =~= blocks[k]);
}

} // verus!
