//! The commands that paint a render model on a rendering surface.
//!
//! A surface fills rectangles and draws text. The order of the commands is
//! the order of painting: what comes later lies above what came before.

use vstd::prelude::*;
use crate::pixel::PixelRect;
use crate::presenter::{Banner, Glyph, Highlight, RenderCell, RenderModel, Rgba};

verus! {

/// One command for the rendering surface.
#[derive(Clone, Copy, Debug, PartialEq, Eq)]
pub enum DrawOp {
    /// Fill `rect` with `color`.
    FillRect { rect: PixelRect, color: Rgba },
    /// Draw `glyph` with its top-left corner at `origin`, `scale` pixels
    /// high.
    DrawGlyph { origin: (i64, i64), scale: u32, glyph: Glyph },
    /// Draw the banner.
    DrawBanner(Banner),
}

/// The background fills of `cells`, one for each cell, in order.
pub open spec fn background_ops(cells: Seq<RenderCell>) -> Seq<DrawOp> {
    Seq::new(
        cells.len(),
        |i: int| DrawOp::FillRect { rect: cells[i].rect, color: cells[i].background },
    )
}

/// The overlay fills of `highlights`, one for each highlight, in order.
pub open spec fn overlay_ops(highlights: Seq<Highlight>) -> Seq<DrawOp> {
    Seq::new(
        highlights.len(),
        |i: int| DrawOp::FillRect { rect: highlights[i].rect, color: highlights[i].color },
    )
}

/// The command that draws the glyph of `cell`, if it has one: at the
/// cell's top-left corner, as high as the cell is wide.
pub open spec fn glyph_op_of(cell: RenderCell) -> Option<DrawOp> {
    match cell.glyph {
        Some(glyph) => Some(
            DrawOp::DrawGlyph { origin: (cell.rect.x, cell.rect.y), scale: cell.rect.width, glyph },
        ),
        None => None,
    }
}

/// The glyphs of `cells`, in order. A cell without a glyph yields nothing.
pub open spec fn glyph_ops(cells: Seq<RenderCell>) -> Seq<DrawOp>
    decreases cells.len(),
{
    if cells.len() == 0 {
        Seq::empty()
    } else {
        let before = glyph_ops(cells.drop_last());
        match glyph_op_of(cells.last()) {
            Some(op) => before.push(op),
            None => before,
        }
    }
}

/// The banner command, if there is a banner.
pub open spec fn banner_ops(banner: Option<Banner>) -> Seq<DrawOp> {
    match banner {
        Some(banner) => seq![DrawOp::DrawBanner(banner)],
        None => Seq::empty(),
    }
}

/// Appending a cell appends its glyph, if it has one, to the glyph commands.
proof fn lemma_glyph_ops_push(cells: Seq<RenderCell>, cell: RenderCell)
    ensures
        glyph_ops(cells.push(cell)) == match glyph_op_of(cell) {
            Some(op) => glyph_ops(cells).push(op),
            None => glyph_ops(cells),
        },
{
    assert(cells.push(cell).drop_last() =~= cells);
}

/// Appends the background fills of `cells` to `ops`.
fn push_background_ops(ops: &mut Vec<DrawOp>, cells: &Vec<RenderCell>)
    ensures
        final(ops)@ == old(ops)@ + background_ops(cells@),
{
    let mut i: usize = 0;
    while i < cells.len()
        invariant
            i <= cells.len(),
            ops@ == old(ops)@ + background_ops(cells@.take(i as int)),
        decreases cells.len() - i,
    {
        ops.push(DrawOp::FillRect { rect: cells[i].rect, color: cells[i].background });
        i += 1;
    }
}

/// Appends the overlay fills of `highlights` to `ops`.
fn push_overlay_ops(ops: &mut Vec<DrawOp>, highlights: &Vec<Highlight>)
    ensures
        final(ops)@ == old(ops)@ + overlay_ops(highlights@),
{
    let mut i: usize = 0;
    while i < highlights.len()
        invariant
            i <= highlights.len(),
            ops@ == old(ops)@ + overlay_ops(highlights@.take(i as int)),
        decreases highlights.len() - i,
    {
        ops.push(DrawOp::FillRect { rect: highlights[i].rect, color: highlights[i].color });
        i += 1;
    }
}

/// Appends the glyphs of `cells` to `ops`.
fn push_glyph_ops(ops: &mut Vec<DrawOp>, cells: &Vec<RenderCell>)
    ensures
        final(ops)@ == old(ops)@ + glyph_ops(cells@),
{
    let mut i: usize = 0;
    while i < cells.len()
        invariant
            i <= cells.len(),
            ops@ == old(ops)@ + glyph_ops(cells@.take(i as int)),
        decreases cells.len() - i,
    {
        proof {
            lemma_glyph_ops_push(cells@.take(i as int), cells@[i as int]);
            assert(cells@.take(i + 1) =~= cells@.take(i as int).push(cells@[i as int]));
        }
        match cells[i].glyph {
            Some(glyph) => {
                let rect = cells[i].rect;
                ops.push(DrawOp::DrawGlyph { origin: (rect.x, rect.y), scale: rect.width, glyph });
            },
            None => {},
        }
        i += 1;
    }
    assert(cells@.take(cells.len() as int) =~= cells@);
}

impl RenderModel {
    /// The commands that paint this model, in painting order: all
    /// backgrounds, then the highlights over them, then the glyphs over
    /// both, then the banner over everything.
    pub open spec fn draw_ops(self) -> Seq<DrawOp> {
        background_ops(self.cells@) + overlay_ops(self.highlights@) + glyph_ops(self.cells@)
            + banner_ops(self.banner)
    }

    /// The commands that paint this model, in painting order.
    pub fn draw_list(&self) -> (ops: Vec<DrawOp>)
        ensures
            ops@ == self.draw_ops(),
    {
        let mut ops: Vec<DrawOp> = Vec::new();
        push_background_ops(&mut ops, &self.cells);
        push_overlay_ops(&mut ops, &self.highlights);
        push_glyph_ops(&mut ops, &self.cells);
        match self.banner {
            Some(banner) => {
                ops.push(DrawOp::DrawBanner(banner));
            },
            None => {},
        }
        ops
    }
}

/// Every glyph command draws the glyph of some cell at that cell's origin.
pub proof fn lemma_glyph_ops_are_glyphs(cells: Seq<RenderCell>)
    ensures
        glyph_ops(cells).len() <= cells.len(),
        forall|k: int|
            #![trigger glyph_ops(cells)[k]]
            0 <= k < glyph_ops(cells).len() ==> exists|i: int|
                #![trigger cells[i]]
                0 <= i < cells.len() && glyph_op_of(cells[i]) == Some(glyph_ops(cells)[k]),
    decreases cells.len(),
{
    if cells.len() > 0 {
        let front = cells.drop_last();
        lemma_glyph_ops_are_glyphs(front);
    }
}

/// The painting order of a model: the background of cell `i` is command
/// `i`; the overlay of highlight `j` follows all backgrounds; the glyphs
/// follow all overlays; the banner, if any, is the last command.
pub proof fn lemma_draw_order(model: RenderModel)
    ensures
        model.draw_ops().len() == model.cells@.len() + model.highlights@.len() + glyph_ops(
            model.cells@,
        ).len() + banner_ops(model.banner).len(),
        forall|i: int|
            #![trigger model.draw_ops()[i]]
            0 <= i < model.cells@.len() ==> model.draw_ops()[i] == (DrawOp::FillRect {
                rect: model.cells@[i].rect,
                color: model.cells@[i].background,
            }),
        forall|j: int|
            #![trigger model.highlights@[j]]
            0 <= j < model.highlights@.len() ==> model.draw_ops()[model.cells@.len() + j] == (
            DrawOp::FillRect {
                rect: model.highlights@[j].rect,
                color: model.highlights@[j].color,
            }),
        forall|k: int|
            #![trigger glyph_ops(model.cells@)[k]]
            0 <= k < glyph_ops(model.cells@).len() ==> model.draw_ops()[model.cells@.len()
                + model.highlights@.len() + k] == glyph_ops(model.cells@)[k],
        model.banner matches Some(banner) ==> model.draw_ops().last() == DrawOp::DrawBanner(
            banner,
        ),
{
}

} // verus!
