//! The board presenter: what a frame shows.
//!
//! From a snapshot of the board, the engine's answer to the pending query
//! and its terminal flag, the presenter derives a render model. It draws
//! nothing and it never fails: a destination name that names no square is
//! left out.

use vstd::prelude::*;
use crate::board::{BoardSnapshot, Piece, PieceKind, Side};
use crate::pixel::{rect_of, square_to_pixel_rect, PixelRect};
use crate::selection::{GamePhase, Interaction, SelectionState};
use crate::square::{
    is_canonical, lemma_canonical_round_trip, lemma_notation_round_trip, lemma_parse_on_board,
    parse_notation, string_to_coordinates, Square,
};

verus! {

/// A colour with opacity, eight bits a channel.
#[derive(Clone, Copy, Debug, PartialEq, Eq, Structural)]
pub struct Rgba {
    pub r: u8,
    pub g: u8,
    pub b: u8,
    pub a: u8,
}

/// The glyph of a piece and the colour to draw it in.
#[derive(Clone, Copy, Debug, PartialEq, Eq, Structural)]
pub struct Glyph {
    pub symbol: char,
    pub color: Rgba,
}

/// Whether a highlighted destination holds a piece.
#[derive(Clone, Copy, Debug, PartialEq, Eq, Structural)]
pub enum HighlightKind {
    /// The destination is occupied.
    Capture,
    /// The destination is empty.
    Quiet,
}

/// What to draw for one cell of the board.
#[derive(Clone, Copy, Debug, PartialEq, Eq)]
pub struct RenderCell {
    pub square: Square,
    /// The pixels of the cell.
    pub rect: PixelRect,
    pub background: Rgba,
    /// The glyph of the occupant. An empty cell has none, and neither has a
    /// piece of a kind without a glyph.
    pub glyph: Option<Glyph>,
}

/// A legal destination of the selected piece.
#[derive(Clone, Copy, Debug, PartialEq, Eq)]
pub struct Highlight {
    pub square: Square,
    /// The pixels of the square.
    pub rect: PixelRect,
    pub kind: HighlightKind,
    pub color: Rgba,
}

/// The text shown when the game has ended.
#[derive(Clone, Copy, Debug, PartialEq, Eq)]
pub struct Banner {
    pub text: &'static str,
    /// The pixel of the text's top-left corner.
    pub origin: (i64, i64),
    /// The height of the text in pixels.
    pub scale: u32,
    pub color: Rgba,
}

/// Everything that one frame shows.
#[derive(Debug, PartialEq, Eq)]
pub struct RenderModel {
    /// The 64 cells, row by row from the top, each row from the left.
    pub cells: Vec<RenderCell>,
    /// The legal destinations of the selected piece, in the engine's order.
    pub highlights: Vec<Highlight>,
    pub banner: Option<Banner>,
}

/// The background of the top-left square and of every square an even
/// number of steps from it.
pub open spec fn light_square() -> Rgba {
    Rgba { r: 255, g: 161, b: 161, a: 255 }
}

/// The background of the other squares.
pub open spec fn dark_square() -> Rgba {
    Rgba { r: 180, g: 112, b: 80, a: 255 }
}

/// The colour of the white side's glyphs and of the banner.
pub open spec fn white() -> Rgba {
    Rgba { r: 255, g: 255, b: 255, a: 255 }
}

/// The colour of the black side's glyphs.
pub open spec fn black() -> Rgba {
    Rgba { r: 0, g: 0, b: 0, a: 255 }
}

/// The background colour of `square`: the two colours alternate.
pub open spec fn background_of(square: Square) -> Rgba {
    if (square.row + square.col) % 2 == 0 {
        light_square()
    } else {
        dark_square()
    }
}

/// The colour in which a side's glyphs are drawn.
pub open spec fn side_color(side: Side) -> Rgba {
    match side {
        Side::White => white(),
        Side::Black => black(),
    }
}

/// The glyph of a piece: the chess symbol of its kind in the colour of its
/// side.
pub open spec fn glyph_of(piece: Piece) -> Option<Glyph> {
    let color = side_color(piece.side);
    match piece.kind {
        PieceKind::King => Some(Glyph { symbol: '\u{265A}', color }),
        PieceKind::Queen => Some(Glyph { symbol: '\u{265B}', color }),
        PieceKind::Rook => Some(Glyph { symbol: '\u{265C}', color }),
        PieceKind::Bishop => Some(Glyph { symbol: '\u{265D}', color }),
        PieceKind::Knight => Some(Glyph { symbol: '\u{265E}', color }),
        PieceKind::Pawn => Some(Glyph { symbol: '\u{265F}', color }),
        PieceKind::Other => None,
    }
}

/// Whether moving to `square` lands on a piece.
pub open spec fn kind_of_destination(board: BoardSnapshot, square: Square) -> HighlightKind {
    if board.occupant(square) is Some {
        HighlightKind::Capture
    } else {
        HighlightKind::Quiet
    }
}

/// The overlay colour of a highlighted destination.
pub open spec fn highlight_color(kind: HighlightKind) -> Rgba {
    match kind {
        HighlightKind::Capture => Rgba { r: 100, g: 69, b: 200, a: 200 },
        HighlightKind::Quiet => Rgba { r: 182, g: 212, b: 119, a: 200 },
    }
}

/// The banner text for checkmate.
pub open spec fn checkmate_text() -> Seq<char> {
    "Checkmate :O"@
}

/// What to draw for `square`.
pub open spec fn cell_of(
    board: BoardSnapshot,
    square: Square,
    board_width: u32,
    board_height: u32,
) -> RenderCell {
    RenderCell {
        square,
        rect: rect_of(square, board_width as int, board_height as int),
        background: background_of(square),
        glyph: match board.occupant(square) {
            Some(piece) => glyph_of(piece),
            None => None,
        },
    }
}

/// The square of the cell at `index`, counting row by row.
pub open spec fn square_at(index: int) -> Square {
    Square { col: (index % 8) as usize, row: (index / 8) as usize }
}

/// The 64 cells of a frame, row by row.
pub open spec fn cells_of(board: BoardSnapshot, board_width: u32, board_height: u32) -> Seq<
    RenderCell,
> {
    Seq::new(64, |i: int| cell_of(board, square_at(i), board_width, board_height))
}

/// The highlight for the destination `square`.
pub open spec fn highlight_of(
    board: BoardSnapshot,
    square: Square,
    board_width: u32,
    board_height: u32,
) -> Highlight {
    Highlight {
        square,
        rect: rect_of(square, board_width as int, board_height as int),
        kind: kind_of_destination(board, square),
        color: highlight_color(kind_of_destination(board, square)),
    }
}

/// The highlights for a list of destination names, in the order of the
/// list. A name that names no square yields no highlight.
pub open spec fn highlights_of(
    board: BoardSnapshot,
    names: Seq<Seq<char>>,
    board_width: u32,
    board_height: u32,
) -> Seq<Highlight>
    decreases names.len(),
{
    if names.len() == 0 {
        Seq::empty()
    } else {
        let before = highlights_of(board, names.drop_last(), board_width, board_height);
        match parse_notation(names.last()) {
            Some((col, row)) => before.push(
                highlight_of(
                    board,
                    Square { col: col as usize, row: row as usize },
                    board_width,
                    board_height,
                ),
            ),
            None => before,
        }
    }
}

/// The destination names that a frame highlights: the engine's answer to
/// the pending query, and nothing if there is no query or no answer.
pub open spec fn shown_destinations(ui: Interaction, legal: Option<Seq<Seq<char>>>) -> Seq<
    Seq<char>,
> {
    match (ui.pending_query(), legal) {
        (Some(_), Some(names)) => names,
        _ => Seq::empty(),
    }
}

/// The background colour of `square`.
pub fn background(square: Square) -> (color: Rgba)
    requires
        square.wf(),
    ensures
        color == background_of(square),
{
    if (square.row + square.col) % 2 == 0 {
        Rgba { r: 255, g: 161, b: 161, a: 255 }
    } else {
        Rgba { r: 180, g: 112, b: 80, a: 255 }
    }
}

/// The colour in which a side's glyphs are drawn.
pub fn piece_color(side: Side) -> (color: Rgba)
    ensures
        color == side_color(side),
{
    match side {
        Side::White => Rgba { r: 255, g: 255, b: 255, a: 255 },
        Side::Black => Rgba { r: 0, g: 0, b: 0, a: 255 },
    }
}

/// The glyph of a piece, if its kind has one.
pub fn glyph(piece: Piece) -> (glyph: Option<Glyph>)
    ensures
        glyph == glyph_of(piece),
{
    let color = piece_color(piece.side);
    match piece.kind {
        PieceKind::King => Some(Glyph { symbol: '\u{265A}', color }),
        PieceKind::Queen => Some(Glyph { symbol: '\u{265B}', color }),
        PieceKind::Rook => Some(Glyph { symbol: '\u{265C}', color }),
        PieceKind::Bishop => Some(Glyph { symbol: '\u{265D}', color }),
        PieceKind::Knight => Some(Glyph { symbol: '\u{265E}', color }),
        PieceKind::Pawn => Some(Glyph { symbol: '\u{265F}', color }),
        PieceKind::Other => None,
    }
}

/// What to draw for `square`.
pub fn render_cell(board: &BoardSnapshot, square: Square, board_width: u32, board_height: u32) -> (cell:
    RenderCell)
    requires
        square.wf(),
    ensures
        cell == cell_of(*board, square, board_width, board_height),
{
    let rect = square_to_pixel_rect(square, board_width, board_height);
    let mark = match board.piece_at(square) {
        Some(piece) => glyph(piece),
        None => None,
    };
    RenderCell { square, rect, background: background(square), glyph: mark }
}

/// The highlight for the destination `square`: a capture if the square is
/// occupied, quiet if it is empty.
pub fn render_highlight(
    board: &BoardSnapshot,
    square: Square,
    board_width: u32,
    board_height: u32,
) -> (highlight: Highlight)
    requires
        square.wf(),
    ensures
        highlight == highlight_of(*board, square, board_width, board_height),
{
    let rect = square_to_pixel_rect(square, board_width, board_height);
    match board.piece_at(square) {
        Some(_) => Highlight {
            square,
            rect,
            kind: HighlightKind::Capture,
            color: Rgba { r: 100, g: 69, b: 200, a: 200 },
        },
        None => Highlight {
            square,
            rect,
            kind: HighlightKind::Quiet,
            color: Rgba { r: 182, g: 212, b: 119, a: 200 },
        },
    }
}

/// The cells of a frame.
fn render_cells(board: &BoardSnapshot, board_width: u32, board_height: u32) -> (cells: Vec<
    RenderCell,
>)
    ensures
        cells@ == cells_of(*board, board_width, board_height),
{
    let mut cells: Vec<RenderCell> = Vec::new();
    let mut i: usize = 0;
    while i < 64
        invariant
            i <= 64,
            cells@.len() == i,
            forall|k: int|
                0 <= k < i ==> cells@[k] == cells_of(*board, board_width, board_height)[k],
        decreases 64 - i,
    {
        let square = Square { col: i % 8, row: i / 8 };
        cells.push(render_cell(board, square, board_width, board_height));
        i += 1;
    }
    cells
}

/// The highlights for the destinations that the engine named.
fn render_highlights(
    board: &BoardSnapshot,
    names: &Vec<String>,
    board_width: u32,
    board_height: u32,
) -> (highlights: Vec<Highlight>)
    ensures
        highlights@ == highlights_of(*board, names.deep_view(), board_width, board_height),
{
    let mut highlights: Vec<Highlight> = Vec::new();
    let mut i: usize = 0;
    while i < names.len()
        invariant
            i <= names.len(),
            highlights@ == highlights_of(
                *board,
                names.deep_view().take(i as int),
                board_width,
                board_height,
            ),
        decreases names.len() - i,
    {
        proof {
            let seen = names.deep_view().take(i + 1);
            assert(seen.drop_last() =~= names.deep_view().take(i as int));
        }
        match string_to_coordinates(names[i].as_str()) {
            Ok((col, row)) => {
                highlights.push(
                    render_highlight(board, Square { col, row }, board_width, board_height),
                );
            },
            Err(_) => {},
        }
        i += 1;
    }
    assert(names.deep_view().take(names.len() as int) =~= names.deep_view());
    highlights
}

impl Interaction {
    /// Presents one frame.
    ///
    /// `board` is the engine's board, `legal_moves` its answer to
    /// [`Interaction::move_query`] (`None` where there is no query or the
    /// engine has no moves), and `checkmate` tells whether it reports
    /// checkmate. The model holds all 64 cells, a highlight for each legal
    /// destination of the selected square, and the banner if the engine
    /// reports checkmate. Checkmate ends the game; nothing else changes the
    /// state.
    pub fn present(
        &mut self,
        board: &BoardSnapshot,
        legal_moves: &Option<Vec<String>>,
        checkmate: bool,
        board_width: u32,
        board_height: u32,
    ) -> (model: RenderModel)
        ensures
            *final(self) == old(self).after_frame(checkmate),
            model.cells@ == cells_of(*board, board_width, board_height),
            model.highlights@ == highlights_of(
                *board,
                shown_destinations(*old(self), legal_moves.deep_view()),
                board_width,
                board_height,
            ),
            checkmate ==> (model.banner matches Some(banner) && banner.text@ == checkmate_text()
                && banner.origin == (0i64, 0i64) && banner.scale == 100 && banner.color
                == white()),
            !checkmate ==> model.banner is None,
    {
        let cells = render_cells(board, board_width, board_height);
        let selected = match (self.phase, self.selection) {
            (GamePhase::InProgress, SelectionState::Selected(_)) => true,
            _ => false,
        };
        let highlights = match legal_moves {
            Some(names) if selected => render_highlights(board, names, board_width, board_height),
            _ => Vec::new(),
        };
        let banner = if checkmate {
            self.phase = GamePhase::Ended;
            Some(
                Banner {
                    text: "Checkmate :O",
                    origin: (0, 0),
                    scale: 100,
                    color: Rgba { r: 255, g: 255, b: 255, a: 255 },
                },
            )
        } else {
            None
        };
        RenderModel { cells, highlights, banner }
    }
}

/// Every highlight of a frame is the highlight of its own square, which lies
/// on the board: it is tagged as a capture exactly if the snapshot shows a
/// piece there, and coloured by its tag.
pub proof fn lemma_highlights_classified(
    board: BoardSnapshot,
    names: Seq<Seq<char>>,
    board_width: u32,
    board_height: u32,
)
    ensures
        forall|j: int|
            #![trigger highlights_of(board, names, board_width, board_height)[j]]
            0 <= j < highlights_of(board, names, board_width, board_height).len() ==> {
                let highlight = highlights_of(board, names, board_width, board_height)[j];
                &&& highlight.square.wf()
                &&& highlight == highlight_of(board, highlight.square, board_width, board_height)
                &&& (highlight.kind == HighlightKind::Capture <==> board.occupant(highlight.square)
                    is Some)
                &&& (highlight.kind == HighlightKind::Quiet <==> board.occupant(highlight.square)
                    is None)
            },
    decreases names.len(),
{
    if names.len() > 0 {
        lemma_highlights_classified(board, names.drop_last(), board_width, board_height);
        if parse_notation(names.last()) is Some {
            lemma_parse_on_board(names.last());
        }
    }
}

/// Every destination that the engine names is highlighted: a name that
/// reads as a square yields that square's highlight.
pub proof fn lemma_destination_highlighted(
    board: BoardSnapshot,
    names: Seq<Seq<char>>,
    k: int,
    board_width: u32,
    board_height: u32,
)
    requires
        0 <= k < names.len(),
        parse_notation(names[k]) is Some,
    ensures
        highlights_of(board, names, board_width, board_height).contains(
            highlight_of(
                board,
                Square {
                    col: parse_notation(names[k]).unwrap().0 as usize,
                    row: parse_notation(names[k]).unwrap().1 as usize,
                },
                board_width,
                board_height,
            ),
        ),
    decreases names.len(),
{
    let all = highlights_of(board, names, board_width, board_height);
    let before = highlights_of(board, names.drop_last(), board_width, board_height);
    if k == names.len() - 1 {
        assert(all[all.len() - 1] == all.last());
    } else {
        lemma_destination_highlighted(board, names.drop_last(), k, board_width, board_height);
        let wanted = highlight_of(
            board,
            Square {
                col: parse_notation(names[k]).unwrap().0 as usize,
                row: parse_notation(names[k]).unwrap().1 as usize,
            },
            board_width,
            board_height,
        );
        let j = choose|j: int| 0 <= j < before.len() && before[j] == wanted;
        assert(all[j] == wanted);
    }
}

/// Nothing is highlighted unless a square is selected in a running game and
/// the engine has moves for it.
pub proof fn lemma_no_query_no_highlights(
    ui: Interaction,
    board: BoardSnapshot,
    legal: Option<Seq<Seq<char>>>,
    board_width: u32,
    board_height: u32,
)
    requires
        ui.pending_query() is None || legal is None,
    ensures
        highlights_of(board, shown_destinations(ui, legal), board_width, board_height).len() == 0,
{
}

/// A frame shows every square of the board once: the cell of the square at
/// (`col`, `row`) stands at index `row * 8 + col`.
pub proof fn lemma_cell_of_square(
    board: BoardSnapshot,
    square: Square,
    board_width: u32,
    board_height: u32,
)
    requires
        square.wf(),
    ensures
        cells_of(board, board_width, board_height).len() == 64,
        cells_of(board, board_width, board_height)[square.row * 8 + square.col] == cell_of(
            board,
            square,
            board_width,
            board_height,
        ),
{
}

/// Every highlight stems from a name of the engine's: one that reads as the
/// highlighted square.
pub proof fn lemma_highlight_has_source(
    board: BoardSnapshot,
    names: Seq<Seq<char>>,
    j: int,
    board_width: u32,
    board_height: u32,
)
    requires
        0 <= j < highlights_of(board, names, board_width, board_height).len(),
    ensures
        exists|k: int|
            0 <= k < names.len() && parse_notation(#[trigger] names[k]) == Some(
                (
                    highlights_of(board, names, board_width, board_height)[j].square.col as int,
                    highlights_of(board, names, board_width, board_height)[j].square.row as int,
                ),
            ),
    decreases names.len(),
{
    let all = highlights_of(board, names, board_width, board_height);
    let before = highlights_of(board, names.drop_last(), board_width, board_height);
    let square = all[j].square;
    if j < before.len() {
        lemma_highlight_has_source(board, names.drop_last(), j, board_width, board_height);
        let k = choose|k: int|
            0 <= k < names.drop_last().len() && parse_notation(#[trigger] names.drop_last()[k])
                == Some((square.col as int, square.row as int));
        assert(names[k] == names.drop_last()[k]);
    } else {
        lemma_parse_on_board(names.last());
        assert(parse_notation(names[names.len() - 1]) == Some(
            (square.col as int, square.row as int),
        ));
    }
}

/// What is highlighted is what can be clicked: if the engine names its
/// destinations canonically, a square carries a highlight exactly if a
/// click on it commands a move.
pub proof fn lemma_highlighted_iff_move(
    ui: Interaction,
    board: BoardSnapshot,
    names: Seq<Seq<char>>,
    clicked: Square,
    board_width: u32,
    board_height: u32,
)
    requires
        ui.pending_query() is Some,
        clicked.wf(),
        forall|k: int| 0 <= k < names.len() ==> is_canonical(#[trigger] names[k]),
    ensures
        ui.move_on_click(clicked, Some(names)) is Some <==> exists|j: int|
            0 <= j < highlights_of(
                board,
                shown_destinations(ui, Some(names)),
                board_width,
                board_height,
            ).len() && (#[trigger] highlights_of(
                board,
                shown_destinations(ui, Some(names)),
                board_width,
                board_height,
            )[j]).square == clicked,
{
    let all = highlights_of(board, names, board_width, board_height);
    if ui.move_on_click(clicked, Some(names)) is Some {
        let k = choose|k: int| 0 <= k < names.len() && names[k] == clicked.notation();
        lemma_notation_round_trip(clicked.col as int, clicked.row as int);
        lemma_destination_highlighted(board, names, k, board_width, board_height);
        let wanted = highlight_of(board, clicked, board_width, board_height);
        let j = choose|j: int| 0 <= j < all.len() && all[j] == wanted;
        assert(all[j].square == clicked);
    }
    if exists|j: int| 0 <= j < all.len() && (#[trigger] all[j]).square == clicked {
        let j = choose|j: int| 0 <= j < all.len() && (#[trigger] all[j]).square == clicked;
        lemma_highlight_has_source(board, names, j, board_width, board_height);
        let k = choose|k: int|
            0 <= k < names.len() && parse_notation(#[trigger] names[k]) == Some(
                (clicked.col as int, clicked.row as int),
            );
        lemma_canonical_round_trip(names[k]);
        assert(names[k] == clicked.notation());
    }
}

} // verus!
