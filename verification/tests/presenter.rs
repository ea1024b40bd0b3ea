use chessgui::board::{BoardSnapshot, Piece, PieceKind, Side};
use chessgui::pixel::PixelRect;
use chessgui::presenter::{
    background, glyph, piece_color, render_cell, render_highlight, Banner, Glyph, Highlight,
    HighlightKind, RenderCell, RenderModel, Rgba,
};
use chessgui::selection::{GamePhase, Interaction, SelectionState};
use chessgui::square::Square;
use chessgui::surface::DrawOp;

const LIGHT: Rgba = Rgba { r: 255, g: 161, b: 161, a: 255 };
const DARK: Rgba = Rgba { r: 180, g: 112, b: 80, a: 255 };
const WHITE: Rgba = Rgba { r: 255, g: 255, b: 255, a: 255 };
const BLACK: Rgba = Rgba { r: 0, g: 0, b: 0, a: 255 };
const CAPTURE: Rgba = Rgba { r: 100, g: 69, b: 200, a: 200 };
const QUIET: Rgba = Rgba { r: 182, g: 212, b: 119, a: 200 };

fn at(col: usize, row: usize) -> Square {
    Square { col, row }
}

fn rect(x: i64, y: i64, width: u32, height: u32) -> PixelRect {
    PixelRect { x, y, width, height }
}

fn board_with(pieces: &[(Square, PieceKind, Side)]) -> BoardSnapshot {
    let mut cells = [[None; 8]; 8];
    for (square, kind, side) in pieces {
        cells[square.row][square.col] = Some(Piece { kind: *kind, side: *side });
    }
    BoardSnapshot { cells }
}

fn names(list: &[&str]) -> Option<Vec<String>> {
    Some(list.iter().map(|s| s.to_string()).collect())
}

fn selected(square: Square) -> Interaction {
    Interaction { selection: SelectionState::Selected(square), phase: GamePhase::InProgress }
}

#[test]
fn top_left_square_is_light() {
    assert_eq!(background(at(0, 0)), LIGHT);
}

#[test]
fn backgrounds_alternate_by_parity() {
    for col in 0..8usize {
        for row in 0..8usize {
            let expected = if (row + col) % 2 == 0 { LIGHT } else { DARK };
            assert_eq!(background(at(col, row)), expected);
        }
    }
    assert_eq!(background(at(1, 0)), DARK);
    assert_eq!(background(at(0, 1)), DARK);
    assert_eq!(background(at(7, 7)), LIGHT);
}

#[test]
fn each_kind_has_its_glyph() {
    let cases = [
        (PieceKind::King, '\u{265A}'),
        (PieceKind::Queen, '\u{265B}'),
        (PieceKind::Rook, '\u{265C}'),
        (PieceKind::Bishop, '\u{265D}'),
        (PieceKind::Knight, '\u{265E}'),
        (PieceKind::Pawn, '\u{265F}'),
    ];
    for (kind, symbol) in cases {
        assert_eq!(
            glyph(Piece { kind, side: Side::White }),
            Some(Glyph { symbol, color: WHITE })
        );
        assert_eq!(
            glyph(Piece { kind, side: Side::Black }),
            Some(Glyph { symbol, color: BLACK })
        );
    }
}

#[test]
fn a_kind_without_a_glyph_draws_nothing() {
    assert_eq!(glyph(Piece { kind: PieceKind::Other, side: Side::White }), None);
    assert_eq!(glyph(Piece { kind: PieceKind::Other, side: Side::Black }), None);
}

#[test]
fn sides_have_their_colours() {
    assert_eq!(piece_color(Side::White), WHITE);
    assert_eq!(piece_color(Side::Black), BLACK);
}

#[test]
fn a_cell_shows_its_occupant() {
    let board = board_with(&[(at(3, 1), PieceKind::Queen, Side::Black)]);
    assert_eq!(
        render_cell(&board, at(3, 1), 800, 800),
        RenderCell {
            square: at(3, 1),
            rect: rect(300, 100, 100, 100),
            background: LIGHT,
            glyph: Some(Glyph { symbol: '\u{265B}', color: BLACK }),
        }
    );
    assert_eq!(
        render_cell(&board, at(1, 3), 800, 800),
        RenderCell { square: at(1, 3), rect: rect(100, 300, 100, 100), background: LIGHT, glyph: None }
    );
    assert_eq!(
        render_cell(&board, at(2, 3), 800, 400),
        RenderCell { square: at(2, 3), rect: rect(200, 150, 100, 50), background: DARK, glyph: None }
    );
}

#[test]
fn a_highlight_on_a_piece_is_a_capture() {
    let board = board_with(&[(at(3, 1), PieceKind::Pawn, Side::Black)]);
    assert_eq!(
        render_highlight(&board, at(3, 1), 800, 800),
        Highlight {
            square: at(3, 1),
            rect: rect(300, 100, 100, 100),
            kind: HighlightKind::Capture,
            color: CAPTURE,
        }
    );
}

#[test]
fn a_highlight_on_an_empty_square_is_quiet() {
    let board = board_with(&[(at(3, 1), PieceKind::Pawn, Side::Black)]);
    assert_eq!(
        render_highlight(&board, at(4, 4), 800, 800),
        Highlight {
            square: at(4, 4),
            rect: rect(400, 400, 100, 100),
            kind: HighlightKind::Quiet,
            color: QUIET,
        }
    );
}

#[test]
fn a_piece_without_a_glyph_still_makes_a_capture() {
    let board = board_with(&[(at(0, 0), PieceKind::Other, Side::White)]);
    assert_eq!(render_highlight(&board, at(0, 0), 80, 80).kind, HighlightKind::Capture);
    assert_eq!(render_cell(&board, at(0, 0), 80, 80).glyph, None);
}

#[test]
fn a_frame_has_64_cells_row_by_row() {
    let board = board_with(&[
        (at(4, 7), PieceKind::King, Side::White),
        (at(4, 0), PieceKind::King, Side::Black),
    ]);
    let mut ui = Interaction::new();
    let model = ui.present(&board, &None, false, 800, 800);
    assert_eq!(model.cells.len(), 64);
    for (index, cell) in model.cells.iter().enumerate() {
        let square = at(index % 8, index / 8);
        assert_eq!(*cell, render_cell(&board, square, 800, 800));
        assert_eq!(cell.square, square);
        assert_eq!(
            cell.rect,
            rect((square.col * 100) as i64, (square.row * 100) as i64, 100, 100)
        );
    }
    assert_eq!(model.cells[4].glyph, Some(Glyph { symbol: '\u{265A}', color: BLACK }));
    assert_eq!(model.cells[60].glyph, Some(Glyph { symbol: '\u{265A}', color: WHITE }));
    assert_eq!(model.cells[0].background, LIGHT);
    assert_eq!(model.cells[1].background, DARK);
    assert_eq!(model.cells[8].background, DARK);
}

#[test]
fn an_idle_frame_has_no_highlights_and_no_banner() {
    let board = board_with(&[]);
    let mut ui = Interaction::new();
    let model = ui.present(&board, &names(&["E4"]), false, 800, 800);
    assert!(model.highlights.is_empty());
    assert_eq!(model.banner, None);
    assert_eq!(ui, Interaction::new());
}

#[test]
fn a_selection_without_legal_moves_has_no_highlights() {
    let board = board_with(&[]);
    let mut ui = selected(at(4, 6));
    let model = ui.present(&board, &None, false, 800, 800);
    assert!(model.highlights.is_empty());
    let model = ui.present(&board, &names(&[]), false, 800, 800);
    assert!(model.highlights.is_empty());
    assert_eq!(ui, selected(at(4, 6)));
}

#[test]
fn destinations_are_tagged_capture_or_quiet() {
    let board = board_with(&[
        (at(4, 6), PieceKind::Pawn, Side::White),
        (at(3, 5), PieceKind::Pawn, Side::Black),
    ]);
    let mut ui = selected(at(4, 6));
    let model = ui.present(&board, &names(&["E3", "E4", "D3"]), false, 800, 800);
    assert_eq!(
        model.highlights,
        vec![
            Highlight {
                square: at(4, 5),
                rect: rect(400, 500, 100, 100),
                kind: HighlightKind::Quiet,
                color: QUIET,
            },
            Highlight {
                square: at(4, 4),
                rect: rect(400, 400, 100, 100),
                kind: HighlightKind::Quiet,
                color: QUIET,
            },
            Highlight {
                square: at(3, 5),
                rect: rect(300, 500, 100, 100),
                kind: HighlightKind::Capture,
                color: CAPTURE,
            },
        ]
    );
}

#[test]
fn every_highlight_is_a_capture_exactly_on_occupied_squares() {
    let board = board_with(&[
        (at(0, 0), PieceKind::Rook, Side::Black),
        (at(7, 7), PieceKind::Rook, Side::White),
        (at(2, 5), PieceKind::Other, Side::White),
    ]);
    let all: Vec<String> = (0..64usize)
        .map(|i| chessgui::square::coordinates_to_string(i % 8, i / 8))
        .collect();
    let mut ui = selected(at(0, 0));
    let model = ui.present(&board, &Some(all), false, 801, 633);
    assert_eq!(model.highlights.len(), 64);
    for highlight in &model.highlights {
        let occupied = board.cells[highlight.square.row][highlight.square.col].is_some();
        let expected = if occupied { HighlightKind::Capture } else { HighlightKind::Quiet };
        assert_eq!(highlight.kind, expected);
        assert_eq!(highlight.color, if occupied { CAPTURE } else { QUIET });
    }
}

#[test]
fn names_that_name_no_square_are_left_out() {
    let board = board_with(&[]);
    let mut ui = selected(at(4, 6));
    let model = ui.present(&board, &names(&["E4", "zz", "", "E9", "d7", "Q"]), false, 800, 800);
    let squares: Vec<Square> = model.highlights.iter().map(|h| h.square).collect();
    assert_eq!(squares, vec![at(4, 4), at(3, 1)]);
}

#[test]
fn repeated_names_are_highlighted_each_time() {
    let board = board_with(&[]);
    let mut ui = selected(at(4, 6));
    let model = ui.present(&board, &names(&["E4", "E4"]), false, 800, 800);
    assert_eq!(model.highlights.len(), 2);
    assert_eq!(model.highlights[0], model.highlights[1]);
}

#[test]
fn checkmate_shows_the_banner_and_ends_the_game() {
    let board = board_with(&[]);
    let mut ui = Interaction::new();
    let model = ui.present(&board, &None, true, 800, 800);
    assert_eq!(
        model.banner,
        Some(Banner { text: "Checkmate :O", origin: (0, 0), scale: 100, color: WHITE })
    );
    assert_eq!(ui.phase, GamePhase::Ended);
    assert_eq!(ui.selection, SelectionState::Idle);
}

#[test]
fn without_checkmate_the_game_goes_on() {
    let board = board_with(&[]);
    let mut ui = selected(at(1, 1));
    let model = ui.present(&board, &None, false, 800, 800);
    assert_eq!(model.banner, None);
    assert_eq!(ui.phase, GamePhase::InProgress);
    assert_eq!(ui.selection, SelectionState::Selected(at(1, 1)));
}

#[test]
fn an_ended_game_stays_ended() {
    let board = board_with(&[]);
    let mut ui = Interaction::new();
    ui.present(&board, &None, true, 800, 800);
    assert_eq!(ui.phase, GamePhase::Ended);
    let model = ui.present(&board, &None, false, 800, 800);
    assert_eq!(model.banner, None);
    assert_eq!(ui.phase, GamePhase::Ended);
    ui.present(&board, &None, true, 800, 800);
    assert_eq!(ui.phase, GamePhase::Ended);
    assert_eq!(ui.click(at(4, 6), &names(&["E4"])), None);
    assert_eq!(ui.selection, SelectionState::Idle);
    assert_eq!(ui.phase, GamePhase::Ended);
}

#[test]
fn checkmate_keeps_the_selection_and_shows_its_moves_once_more() {
    let board = board_with(&[]);
    let mut ui = selected(at(4, 6));
    let model = ui.present(&board, &names(&["E4"]), true, 800, 800);
    assert_eq!(model.highlights.len(), 1);
    assert_eq!(ui.selection, SelectionState::Selected(at(4, 6)));
    assert_eq!(ui.phase, GamePhase::Ended);
    assert_eq!(ui.move_query(), None);
    let model = ui.present(&board, &names(&["E4"]), true, 800, 800);
    assert!(model.highlights.is_empty());
}

#[test]
fn the_draw_list_paints_in_layers() {
    let board = board_with(&[
        (at(4, 6), PieceKind::Pawn, Side::White),
        (at(3, 5), PieceKind::Knight, Side::Black),
    ]);
    let mut ui = selected(at(4, 6));
    let model = ui.present(&board, &names(&["E3", "D3"]), true, 800, 800);
    let ops = model.draw_list();
    assert_eq!(ops.len(), 64 + 2 + 2 + 1);
    for (index, op) in ops.iter().enumerate().take(64) {
        let cell = model.cells[index];
        assert_eq!(*op, DrawOp::FillRect { rect: cell.rect, color: cell.background });
    }
    assert_eq!(ops[64], DrawOp::FillRect { rect: rect(400, 500, 100, 100), color: QUIET });
    assert_eq!(ops[65], DrawOp::FillRect { rect: rect(300, 500, 100, 100), color: CAPTURE });
    assert_eq!(
        ops[66],
        DrawOp::DrawGlyph {
            origin: (300, 500),
            scale: 100,
            glyph: Glyph { symbol: '\u{265E}', color: BLACK },
        }
    );
    assert_eq!(
        ops[67],
        DrawOp::DrawGlyph {
            origin: (400, 600),
            scale: 100,
            glyph: Glyph { symbol: '\u{265F}', color: WHITE },
        }
    );
    assert_eq!(
        ops[68],
        DrawOp::DrawBanner(Banner { text: "Checkmate :O", origin: (0, 0), scale: 100, color: WHITE })
    );
}

#[test]
fn the_draw_list_of_an_empty_board_is_its_backgrounds() {
    let board = board_with(&[]);
    let mut ui = Interaction::new();
    let ops = ui.present(&board, &None, false, 800, 800).draw_list();
    assert_eq!(ops.len(), 64);
    assert!(ops.iter().all(|op| matches!(op, DrawOp::FillRect { .. })));
}

#[test]
fn the_draw_list_follows_the_model() {
    let model = RenderModel {
        cells: vec![RenderCell {
            square: at(0, 0),
            rect: rect(5, 6, 30, 40),
            background: DARK,
            glyph: Some(Glyph { symbol: 'x', color: WHITE }),
        }],
        highlights: vec![Highlight {
            square: at(0, 0),
            rect: rect(7, 8, 9, 10),
            kind: HighlightKind::Quiet,
            color: QUIET,
        }],
        banner: None,
    };
    assert_eq!(
        model.draw_list(),
        vec![
            DrawOp::FillRect { rect: rect(5, 6, 30, 40), color: DARK },
            DrawOp::FillRect { rect: rect(7, 8, 9, 10), color: QUIET },
            DrawOp::DrawGlyph {
            origin: (5, 6),
            scale: 30,
            glyph: Glyph { symbol: 'x', color: WHITE },
        },
        ]
    );
}

#[test]
fn piece_at_reads_row_then_column() {
    let board = board_with(&[(at(2, 5), PieceKind::Bishop, Side::White)]);
    assert_eq!(
        board.piece_at(at(2, 5)),
        Some(Piece { kind: PieceKind::Bishop, side: Side::White })
    );
    assert_eq!(board.piece_at(at(5, 2)), None);
}

#[test]
fn an_occupant_needs_a_kind_and_a_side() {
    assert_eq!(
        Piece::from_parts(Some(PieceKind::Rook), Some(Side::Black)),
        Some(Piece { kind: PieceKind::Rook, side: Side::Black })
    );
    assert_eq!(
        Piece::from_parts(Some(PieceKind::Other), Some(Side::White)),
        Some(Piece { kind: PieceKind::Other, side: Side::White })
    );
    assert_eq!(Piece::from_parts(Some(PieceKind::Rook), None), None);
    assert_eq!(Piece::from_parts(None, Some(Side::White)), None);
    assert_eq!(Piece::from_parts(None, None), None);
}

#[test]
fn a_square_is_highlighted_exactly_if_clicking_it_moves() {
    let board = board_with(&[(at(3, 5), PieceKind::Pawn, Side::Black)]);
    let legal = names(&["E3", "E4", "D3"]);
    let mut ui = selected(at(4, 6));
    let model = ui.present(&board, &legal, false, 800, 800);
    for col in 0..8usize {
        for row in 0..8usize {
            let highlighted = model.highlights.iter().any(|h| h.square == at(col, row));
            let mut probe = selected(at(4, 6));
            let moves = probe.click(at(col, row), &legal).is_some();
            assert_eq!(highlighted, moves);
        }
    }
}
