//! The board program: an 8x8 grid whose highlighted cell is moved with the
//! arrow keys and which quits on `q`.
//!
//! The cursor lives on an 8x8 grid and wraps around on each axis
//! independently. Each cell of the grid is coloured by a three-way rule,
//! evaluated in this order: the cursor's cell is highlighted whatever its
//! parity; otherwise a cell whose column and row sum to an even number is
//! dark, and one whose sum is odd is light.

use vstd::prelude::*;

use crate::event::{InputEvent, KeyCode, KeyEvent, KeyEventKind};
use crate::geometry::Rect;

verus! {

/// Number of columns and of rows of the grid.
pub const GRID_SIZE: u8 = 8;

/// Width in cells of the bordered board region, two columns per grid cell
/// plus the border.
pub const BOARD_WIDTH: u16 = 18;

/// Height in cells of the bordered board region, one row per grid row plus
/// the border.
pub const BOARD_HEIGHT: u16 = 10;

/// The colour of one grid cell.
#[derive(Clone, Copy, PartialEq, Eq, Structural, Debug)]
pub enum CellColor {
    /// The cursor's cell.
    Highlight,
    /// A cell whose column and row sum to an even number.
    Dark,
    /// A cell whose column and row sum to an odd number.
    Light,
}

/// The board program's whole state: the cursor's cell and the exit flag.
#[derive(Clone, Copy, PartialEq, Eq, Structural, Debug)]
pub struct App {
    /// Set by the quit command; the event loop stops once it is true.
    pub exit: bool,
    /// Column of the highlighted cell.
    pub x: u8,
    /// Row of the highlighted cell.
    pub y: u8,
}

impl App {
    /// Both cursor coordinates lie on the grid.
    pub open spec fn wf(self) -> bool {
        self.x < GRID_SIZE && self.y < GRID_SIZE
    }

    /// The state after one key command: `q` raises the exit flag, the arrow
    /// keys move the cursor one cell with wraparound, anything else changes
    /// nothing.
    pub open spec fn key_step(self, code: KeyCode) -> App {
        match code {
            KeyCode::Char(c) => if c == 'q' {
                App { exit: true, ..self }
            } else {
                self
            },
            KeyCode::Left => App { x: ((self.x + 7) % 8) as u8, ..self },
            KeyCode::Right => App { x: ((self.x + 1) % 8) as u8, ..self },
            KeyCode::Up => App { y: ((self.y + 7) % 8) as u8, ..self },
            KeyCode::Down => App { y: ((self.y + 1) % 8) as u8, ..self },
            KeyCode::Other => self,
        }
    }

    /// The state after one input event: only key presses are acted on; key
    /// releases, repeats and non-key events change nothing.
    pub open spec fn event_step(self, event: InputEvent) -> App {
        match event {
            InputEvent::Key(k) => if k.kind == KeyEventKind::Press {
                self.key_step(k.code)
            } else {
                self
            },
            InputEvent::Other => self,
        }
    }

    /// The colour of the cell at (`col`, `row`): highlighted when it is the
    /// cursor's cell, else dark on an even column-row sum, else light.
    pub open spec fn spec_cell_color(self, col: u8, row: u8) -> CellColor {
        if col == self.x && row == self.y {
            CellColor::Highlight
        } else if (col + row) % 2 == 0 {
            CellColor::Dark
        } else {
            CellColor::Light
        }
    }

    /// The cursor rule applies: (`col`, `row`) is the cursor's cell.
    pub open spec fn highlight_rule(self, col: u8, row: u8) -> bool {
        col == self.x && row == self.y
    }

    /// The dark rule applies: not the cursor's cell, and the column-row sum
    /// is even.
    pub open spec fn dark_rule(self, col: u8, row: u8) -> bool {
        !self.highlight_rule(col, row) && (col + row) % 2 == 0
    }

    /// The light rule applies: not the cursor's cell, and the column-row sum
    /// is odd.
    pub open spec fn light_rule(self, col: u8, row: u8) -> bool {
        !self.highlight_rule(col, row) && (col + row) % 2 == 1
    }

    /// Applies one key command to the state.
    pub fn handle_key_event(&mut self, key_event: KeyEvent)
        requires
            old(self).wf(),
        ensures
            *final(self) == old(self).key_step(key_event.code),
            final(self).wf(),
    {
        match key_event.code {
            KeyCode::Char(c) => if c == 'q' {
                self.exit = true;
            },
            KeyCode::Left => self.x = (self.x + 7) % 8,
            KeyCode::Right => self.x = (self.x + 1) % 8,
            KeyCode::Up => self.y = (self.y + 7) % 8,
            KeyCode::Down => self.y = (self.y + 1) % 8,
            KeyCode::Other => {},
        }
    }

    /// Applies one input event to the state, acting only on key presses.
    pub fn handle_events(&mut self, event: InputEvent)
        requires
            old(self).wf(),
        ensures
            *final(self) == old(self).event_step(event),
            final(self).wf(),
    {
        match event {
            InputEvent::Key(key_event) => if key_event.kind == KeyEventKind::Press {
                self.handle_key_event(key_event);
            },
            InputEvent::Other => {},
        }
    }

    /// The colour of the cell at (`col`, `row`) under the three-way rule.
    pub fn cell_color(&self, col: u8, row: u8) -> (c: CellColor)
        ensures
            c == self.spec_cell_color(col, row),
    {
        if col == self.x && row == self.y {
            CellColor::Highlight
        } else if (col as u16 + row as u16) % 2 == 0 {
            CellColor::Dark
        } else {
            CellColor::Light
        }
    }
}

/// The two states of the event loop itself.
#[derive(Clone, Copy, PartialEq, Eq, Structural, Debug)]
pub enum LoopState {
    /// The loop keeps drawing and reading.
    Running,
    /// A quit command arrived; the loop draws nothing more.
    Exited,
}

/// The event that ends the loop: a press of the `q` key.
pub open spec fn is_quit_press(event: InputEvent) -> bool {
    match event {
        InputEvent::Key(k) => k.kind == KeyEventKind::Press && k.code == KeyCode::Char('q'),
        InputEvent::Other => false,
    }
}

impl App {
    /// The loop state the exit flag encodes.
    pub open spec fn loop_state(self) -> LoopState {
        if self.exit {
            LoopState::Exited
        } else {
            LoopState::Running
        }
    }

    /// The state the loop ends in after consuming `events`: each event is
    /// applied in turn until the exit flag goes up or the events run out.
    pub open spec fn run_final(self, events: Seq<InputEvent>) -> App
        decreases events.len(),
    {
        if self.exit {
            self
        } else if events.len() == 0 {
            self
        } else {
            self.event_step(events[0]).run_final(events.skip(1))
        }
    }

    /// How many frames the loop draws while consuming `events`: one at the
    /// top of each iteration whose state is still running. The frame drawn
    /// in an iteration reflects every event consumed before it.
    pub open spec fn run_draws(self, events: Seq<InputEvent>) -> nat
        decreases events.len(),
    {
        if self.exit {
            0
        } else if events.len() == 0 {
            1
        } else {
            1 + self.event_step(events[0]).run_draws(events.skip(1))
        }
    }

    /// Whether the loop has reached its exited state.
    pub fn is_exited(&self) -> (e: bool)
        ensures
            e == self.exit,
            e <==> self.loop_state() == LoopState::Exited,
    {
        self.exit
    }

    /// Runs the event loop over a finished sequence of input events: draw,
    /// consume one event, and again, until a quit command raises the exit
    /// flag or the events run out. Returns how many frames were drawn.
    pub fn run(&mut self, events: &Vec<InputEvent>) -> (draws: usize)
        requires
            old(self).wf(),
            events@.len() < usize::MAX,
        ensures
            *final(self) == old(self).run_final(events@),
            draws == old(self).run_draws(events@),
            final(self).wf(),
    {
        let mut draws: usize = 0;
        let mut i: usize = 0;
        proof {
            assert(events@.skip(0) =~= events@);
        }
        while !self.exit && i < events.len()
            invariant
                self.wf(),
                i <= events@.len(),
                events@.len() < usize::MAX,
                draws == i,
                old(self).run_final(events@) == self.run_final(events@.skip(i as int)),
                old(self).run_draws(events@) == draws + self.run_draws(events@.skip(i as int)),
            decreases events@.len() - i,
        {
            draws = draws + 1;
            let event = events[i];
            proof {
                assert(events@.skip(i as int)[0] == events@[i as int]);
                assert(events@.skip(i as int).skip(1) =~= events@.skip(i as int + 1));
            }
            self.handle_events(event);
            i = i + 1;
        }
        if !self.is_exited() {
            draws = draws + 1;
        }
        draws
    }
}

/// Once the exit flag is up the loop draws nothing more and the state stays
/// as it is, whatever events still arrive.
pub proof fn lemma_exited_draws_nothing(app: App, events: Seq<InputEvent>)
    requires
        app.exit,
    ensures
        app.run_draws(events) == 0,
        app.run_final(events) == app,
{
}

/// Only a quit press can raise the exit flag.
pub proof fn lemma_only_quit_exits(app: App, event: InputEvent)
    requires
        !app.exit,
        !is_quit_press(event),
    ensures
        !app.event_step(event).exit,
{
}

/// A quit command ends the loop from any running state: when the first quit
/// press arrives as event number `i`, the loop draws exactly `i + 1` frames
/// (one per event consumed before the quit, and the one during which the
/// quit is read) and then stops, with the exit flag up.
pub proof fn lemma_quit_stops_loop(app: App, events: Seq<InputEvent>, i: int)
    requires
        !app.exit,
        0 <= i < events.len(),
        is_quit_press(events[i]),
        forall|j: int| 0 <= j < i ==> !is_quit_press(#[trigger] events[j]),
    ensures
        app.run_draws(events) == i + 1,
        app.run_final(events).exit,
        app.run_final(events).loop_state() == LoopState::Exited,
    decreases i,
{
    let stepped = app.event_step(events[0]);
    if i == 0 {
        assert(stepped.exit);
        lemma_exited_draws_nothing(stepped, events.skip(1));
    } else {
        lemma_only_quit_exits(app, events[0]);
        assert(events.skip(1)[i - 1] == events[i]);
        assert(forall|j: int|
            0 <= j < i - 1 ==> !is_quit_press(#[trigger] events.skip(1)[j]));
        lemma_quit_stops_loop(stepped, events.skip(1), i - 1);
    }
}

/// One rendered frame of the board program: the bordered region the board
/// occupies and the colour of each grid cell.
pub struct BoardFrame {
    /// The board's region: at most 18 by 10 cells, anchored at the top-left
    /// corner of the area rendered into.
    pub area: Rect,
    /// The cell colours, one inner vector of 8 colours per grid row.
    pub rows: Vec<Vec<CellColor>>,
}

impl App {
    /// The region the board is drawn into: the top-left corner of `area`,
    /// capped at 18 columns by 10 rows.
    pub open spec fn spec_board_area(area: Rect) -> Rect {
        Rect {
            x: area.x,
            y: area.y,
            width: if area.width < BOARD_WIDTH { area.width } else { BOARD_WIDTH },
            height: if area.height < BOARD_HEIGHT { area.height } else { BOARD_HEIGHT },
        }
    }

    /// Computes the region of `area` the board is drawn into.
    pub fn board_area(area: Rect) -> (r: Rect)
        ensures
            r == Self::spec_board_area(area),
            area.wf() ==> r.wf(),
    {
        area.clamp_size(BOARD_WIDTH, BOARD_HEIGHT)
    }

    /// Renders the state into a frame: the board's region within `area` and
    /// the colour of every grid cell under the three-way rule. A region too
    /// small for the board, including a zero-size one, is handed back as is;
    /// whoever draws the frame simply runs out of room there.
    pub fn render(&self, area: Rect) -> (frame: BoardFrame)
        ensures
            frame.area == Self::spec_board_area(area),
            frame.rows@.len() == GRID_SIZE,
            forall|r: int| 0 <= r < GRID_SIZE ==> #[trigger] frame.rows@[r]@.len() == GRID_SIZE,
            forall|r: int, c: int|
                0 <= r < GRID_SIZE && 0 <= c < GRID_SIZE ==> #[trigger] frame.rows@[r]@[c]
                    == self.spec_cell_color(c as u8, r as u8),
    {
        let mut rows: Vec<Vec<CellColor>> = Vec::new();
        let mut row: u8 = 0;
        while row < GRID_SIZE
            invariant
                row <= GRID_SIZE,
                rows@.len() == row,
                forall|r: int| 0 <= r < row ==> #[trigger] rows@[r]@.len() == GRID_SIZE,
                forall|r: int, c: int|
                    0 <= r < row && 0 <= c < GRID_SIZE ==> #[trigger] rows@[r]@[c]
                        == self.spec_cell_color(c as u8, r as u8),
            decreases GRID_SIZE - row,
        {
            let mut cells: Vec<CellColor> = Vec::new();
            let mut col: u8 = 0;
            while col < GRID_SIZE
                invariant
                    col <= GRID_SIZE,
                    cells@.len() == col,
                    forall|c: int| 0 <= c < col ==> #[trigger] cells@[c]
                        == self.spec_cell_color(c as u8, row as u8),
                decreases GRID_SIZE - col,
            {
                cells.push(self.cell_color(col, row));
                col = col + 1;
            }
            rows.push(cells);
            row = row + 1;
        }
        BoardFrame { area: App::board_area(area), rows }
    }
}

impl Default for App {
    /// The initial state: cursor at (0, 0), exit flag down.
    fn default() -> (app: App)
        ensures
            app.x == 0,
            app.y == 0,
            !app.exit,
            app.wf(),
    {
        App { exit: false, x: 0, y: 0 }
    }
}

/// For every cell and every cursor position, exactly one of the three colour
/// rules applies, and the cell's colour is the one that rule gives: the
/// cursor rule takes priority over parity, and the two parity rules split
/// the remaining cells between them. No fourth case is reachable.
pub proof fn lemma_cell_rules_exclusive(app: App, col: u8, row: u8)
    ensures
        app.highlight_rule(col, row) ==> !app.dark_rule(col, row) && !app.light_rule(col, row),
        app.dark_rule(col, row) ==> !app.highlight_rule(col, row) && !app.light_rule(col, row),
        app.light_rule(col, row) ==> !app.highlight_rule(col, row) && !app.dark_rule(col, row),
        app.highlight_rule(col, row) || app.dark_rule(col, row) || app.light_rule(col, row),
        app.spec_cell_color(col, row) == CellColor::Highlight <==> app.highlight_rule(col, row),
        app.spec_cell_color(col, row) == CellColor::Dark <==> app.dark_rule(col, row),
        app.spec_cell_color(col, row) == CellColor::Light <==> app.light_rule(col, row),
{
    assert((col + row) % 2 == 0 || (col + row) % 2 == 1);
}

/// Moving the cursor right and then left, or left and then right, returns
/// the whole state to what it was.
pub proof fn lemma_left_right_round_trip(app: App)
    requires
        app.wf(),
    ensures
        app.key_step(KeyCode::Right).key_step(KeyCode::Left) == app,
        app.key_step(KeyCode::Left).key_step(KeyCode::Right) == app,
{
}

/// Key releases, repeats and non-key events leave the state untouched.
pub proof fn lemma_non_press_is_no_op(app: App, event: InputEvent)
    requires
        match event {
            InputEvent::Key(k) => k.kind != KeyEventKind::Press,
            InputEvent::Other => true,
        },
    ensures
        app.event_step(event) == app,
{
}

} // verus!
