//! The two-click selection machine.
//!
//! A first click selects a square, a second click tries to move from the
//! selected square to the clicked one and always deselects. The machine
//! holds no rules engine. Before a click is handled, [`Interaction::move_query`]
//! names the square whose legal moves the machine needs; the caller asks
//! its engine and hands the answer to [`Interaction::click`], which returns
//! the move that the engine is to make, if any.

use vstd::prelude::*;
use crate::pixel::{pixel_to_square, square_of_pixel};
use crate::square::{coordinates_to_string, Square};

verus! {

/// Whether a square is selected, and which.
#[derive(Clone, Copy, Debug, PartialEq, Eq, Structural)]
pub enum SelectionState {
    /// No square is selected.
    Idle,
    /// The square that the next click moves from.
    Selected(Square),
}

/// Whether the game still accepts input.
#[derive(Clone, Copy, Debug, PartialEq, Eq, Structural)]
pub enum GamePhase {
    InProgress,
    /// A terminal condition was seen. Nothing leaves this phase.
    Ended,
}

/// The interaction state: selection and phase.
#[derive(Clone, Copy, Debug, PartialEq, Eq, Structural)]
pub struct Interaction {
    pub selection: SelectionState,
    pub phase: GamePhase,
}

/// A move for the rules engine to make, as two square names.
#[derive(Debug, PartialEq, Eq)]
pub struct MoveCommand {
    pub from: String,
    pub to: String,
}

impl View for MoveCommand {
    type V = (Seq<char>, Seq<char>);

    open spec fn view(&self) -> (Seq<char>, Seq<char>) {
        (self.from@, self.to@)
    }
}

/// Something that happens to the interaction state.
pub enum UiEvent {
    /// The pointer went down on a square.
    Click(Square),
    /// A frame was presented; the flag tells whether the engine reported
    /// checkmate.
    Frame(bool),
}

impl Interaction {
    /// A selected square lies on the board.
    pub open spec fn wf(self) -> bool {
        self.selection matches SelectionState::Selected(origin) ==> origin.wf()
    }

    /// The state at the start of a game.
    pub open spec fn initial() -> Interaction {
        Interaction { selection: SelectionState::Idle, phase: GamePhase::InProgress }
    }

    /// The name of the square whose legal moves are needed to handle the
    /// next click or to present the next frame, if any are.
    pub open spec fn pending_query(self) -> Option<Seq<char>> {
        match (self.phase, self.selection) {
            (GamePhase::InProgress, SelectionState::Selected(origin)) => Some(origin.notation()),
            _ => None,
        }
    }

    /// The state after a click on `clicked`.
    pub open spec fn after_click(self, clicked: Square) -> Interaction {
        match (self.phase, self.selection) {
            (GamePhase::Ended, _) => self,
            (GamePhase::InProgress, SelectionState::Idle) => Interaction {
                selection: SelectionState::Selected(clicked),
                phase: self.phase,
            },
            (GamePhase::InProgress, SelectionState::Selected(_)) => Interaction {
                selection: SelectionState::Idle,
                phase: self.phase,
            },
        }
    }

    /// The move (origin name, destination name) that a click on `clicked`
    /// commands, given the engine's answer `legal` to the pending query.
    ///
    /// A move is commanded exactly if a square is selected, the game is in
    /// progress, and the engine lists the clicked square's canonical name
    /// among the legal destinations.
    pub open spec fn move_on_click(
        self,
        clicked: Square,
        legal: Option<Seq<Seq<char>>>,
    ) -> Option<(Seq<char>, Seq<char>)> {
        match (self.phase, self.selection, legal) {
            (GamePhase::InProgress, SelectionState::Selected(origin), Some(destinations)) => {
                if destinations.contains(clicked.notation()) {
                    Some((origin.notation(), clicked.notation()))
                } else {
                    None
                }
            },
            _ => None,
        }
    }

    /// The state after a frame on which the engine reported `checkmate`.
    pub open spec fn after_frame(self, checkmate: bool) -> Interaction {
        if checkmate {
            Interaction { selection: self.selection, phase: GamePhase::Ended }
        } else {
            self
        }
    }

    /// The state after one event.
    pub open spec fn step(self, event: UiEvent) -> Interaction {
        match event {
            UiEvent::Click(clicked) => self.after_click(clicked),
            UiEvent::Frame(checkmate) => self.after_frame(checkmate),
        }
    }

    /// The state after a sequence of events, first to last.
    pub open spec fn run(self, events: Seq<UiEvent>) -> Interaction
        decreases events.len(),
    {
        if events.len() == 0 {
            self
        } else {
            self.step(events[0]).run(events.drop_first())
        }
    }

    /// The state at the start of a game: nothing selected, game in progress.
    pub fn new() -> (ui: Interaction)
        ensures
            ui == Interaction::initial(),
            ui.wf(),
    {
        Interaction { selection: SelectionState::Idle, phase: GamePhase::InProgress }
    }

    /// The name of the square whose legal moves the caller has to obtain
    /// from its engine before the next click or frame; `None` if the engine
    /// need not be asked.
    pub fn move_query(&self) -> (query: Option<String>)
        requires
            self.wf(),
        ensures
            query.deep_view() == self.pending_query(),
    {
        match (self.phase, self.selection) {
            (GamePhase::InProgress, SelectionState::Selected(origin)) => Some(
                coordinates_to_string(origin.col, origin.row),
            ),
            _ => None,
        }
    }

    /// Handles a click on `clicked`.
    ///
    /// `legal_moves` is the engine's answer to [`Interaction::move_query`]:
    /// the names of the legal destinations from the selected square, or
    /// `None` if it has none. It is not read unless a square is selected
    /// and the game is in progress. The result is the move that the engine
    /// is to make.
    pub fn click(&mut self, clicked: Square, legal_moves: &Option<Vec<String>>) -> (command: Option<
        MoveCommand,
    >)
        requires
            old(self).wf(),
            clicked.wf(),
        ensures
            *final(self) == old(self).after_click(clicked),
            final(self).wf(),
            match old(self).move_on_click(clicked, legal_moves.deep_view()) {
                Some(names) => command matches Some(c) && c@ == names,
                None => command is None,
            },
    {
        match (self.phase, self.selection) {
            (GamePhase::Ended, _) => None,
            (GamePhase::InProgress, SelectionState::Idle) => {
                self.selection = SelectionState::Selected(clicked);
                None
            },
            (GamePhase::InProgress, SelectionState::Selected(origin)) => {
                self.selection = SelectionState::Idle;
                match legal_moves {
                    Some(destinations) => {
                        let to = coordinates_to_string(clicked.col, clicked.row);
                        if contains_name(destinations, &to) {
                            Some(MoveCommand { from: coordinates_to_string(origin.col, origin.row), to })
                        } else {
                            None
                        }
                    },
                    None => None,
                }
            },
        }
    }

    /// Handles a pointer press at pixel (`x`, `y`) of a board drawn
    /// `board_width` by `board_height` pixels large: a click on the square
    /// under the pixel.
    pub fn click_at(
        &mut self,
        x: i64,
        y: i64,
        board_width: u32,
        board_height: u32,
        legal_moves: &Option<Vec<String>>,
    ) -> (command: Option<MoveCommand>)
        requires
            old(self).wf(),
        ensures
            *final(self) == old(self).after_click(
                square_of_pixel(x as int, y as int, board_width as int, board_height as int),
            ),
            final(self).wf(),
            match old(self).move_on_click(
                square_of_pixel(x as int, y as int, board_width as int, board_height as int),
                legal_moves.deep_view(),
            ) {
                Some(names) => command matches Some(c) && c@ == names,
                None => command is None,
            },
    {
        let clicked = pixel_to_square(x, y, board_width, board_height);
        self.click(clicked, legal_moves)
    }
}

/// Whether `name` is one of `names`, compared character for character.
fn contains_name(names: &Vec<String>, name: &String) -> (found: bool)
    ensures
        found == names.deep_view().contains(name@),
{
    let mut i: usize = 0;
    while i < names.len()
        invariant
            i <= names.len(),
            forall|k: int| 0 <= k < i ==> names.deep_view()[k] != name@,
        decreases names.len() - i,
    {
        if names[i] == *name {
            assert(names.deep_view()[i as int] == name@);
            return true;
        }
        i += 1;
    }
    false
}

/// A first click selects the clicked square, whatever it holds, and the
/// machine then asks for the legal moves from that square.
pub proof fn lemma_first_click_selects(ui: Interaction, a: Square, legal: Option<Seq<Seq<char>>>)
    requires
        ui.phase == GamePhase::InProgress,
        ui.selection == SelectionState::Idle,
    ensures
        ui.pending_query() is None,
        ui.move_on_click(a, legal) is None,
        ui.after_click(a).selection == SelectionState::Selected(a),
        ui.after_click(a).phase == GamePhase::InProgress,
        ui.after_click(a).pending_query() == Some(a.notation()),
{
}

/// Selecting a square and then clicking a square that the engine does not
/// list as a legal destination leaves the machine idle and commands no move.
pub proof fn lemma_illegal_destination_deselects(
    ui: Interaction,
    a: Square,
    b: Square,
    legal: Option<Seq<Seq<char>>>,
)
    requires
        ui.phase == GamePhase::InProgress,
        ui.selection == SelectionState::Idle,
        legal matches Some(destinations) ==> !destinations.contains(b.notation()),
    ensures
        ui.after_click(a).move_on_click(b, legal) is None,
        ui.after_click(a).after_click(b) == ui,
{
}

/// Selecting a square and then clicking a square that the engine lists as a
/// legal destination commands the move between the two and leaves the
/// machine idle.
pub proof fn lemma_legal_destination_moves(
    ui: Interaction,
    a: Square,
    d: Square,
    destinations: Seq<Seq<char>>,
)
    requires
        ui.phase == GamePhase::InProgress,
        ui.selection == SelectionState::Idle,
        destinations.contains(d.notation()),
    ensures
        ui.after_click(a).move_on_click(d, Some(destinations)) == Some(
            (a.notation(), d.notation()),
        ),
        ui.after_click(a).after_click(d) == ui,
{
}

/// A second click never selects: whatever the engine answers, the machine
/// is idle after it.
pub proof fn lemma_second_click_deselects(ui: Interaction, clicked: Square)
    requires
        ui.phase == GamePhase::InProgress,
        ui.selection is Selected,
    ensures
        ui.after_click(clicked).selection == SelectionState::Idle,
        ui.after_click(clicked).phase == GamePhase::InProgress,
{
}

/// Once the game has ended, no sequence of clicks and frames changes the
/// state, the engine is asked nothing, and no click commands a move.
pub proof fn lemma_ended_is_final(
    ui: Interaction,
    events: Seq<UiEvent>,
    clicked: Square,
    legal: Option<Seq<Seq<char>>>,
)
    requires
        ui.phase == GamePhase::Ended,
    ensures
        ui.run(events) == ui,
        ui.pending_query() is None,
        ui.move_on_click(clicked, legal) is None,
    decreases events.len(),
{
    if events.len() > 0 {
        lemma_ended_is_final(ui, events.drop_first(), clicked, legal);
    }
}

/// A frame on which the engine reports checkmate ends the game and keeps
/// the selection; every other frame changes nothing.
pub proof fn lemma_checkmate_ends_game(ui: Interaction, events: Seq<UiEvent>)
    ensures
        ui.after_frame(true).phase == GamePhase::Ended,
        ui.after_frame(true).selection == ui.selection,
        ui.after_frame(false) == ui,
        ui.after_frame(true).run(events) == ui.after_frame(true),
{
    let clicked = Square { col: 0, row: 0 };
    lemma_ended_is_final(ui.after_frame(true), events, clicked, None);
}

/// The machine keeps its selected square on the board.
pub proof fn lemma_step_preserves_wf(ui: Interaction, event: UiEvent)
    requires
        ui.wf(),
        event matches UiEvent::Click(clicked) ==> clicked.wf(),
    ensures
        ui.step(event).wf(),
{
}

} // verus!
