//! The panel program: a static screen split into four bordered panels,
//! quitting on `q`.
//!
//! The screen is cut into a left half and a right half; the right half into
//! a top and a bottom quarter; and the top-right quarter into two eighths.
//! Panels are drawn into the left half, the bottom-right quarter, and the
//! two top-right eighths. Nothing but the quit command changes anything.

use vstd::prelude::*;

use crate::board::is_quit_press;
use crate::board::LoopState;
use crate::event::{InputEvent, KeyCode, KeyEvent, KeyEventKind};
use crate::geometry::Rect;

verus! {

/// The four regions the screen is partitioned into, each of which gets a
/// bordered, centre-aligned panel.
#[derive(Clone, Copy, PartialEq, Eq, Structural, Debug)]
pub struct PanelLayout {
    /// The left half of the screen.
    pub left: Rect,
    /// The bottom half of the right half.
    pub bottom_right: Rect,
    /// The left eighth at the top right.
    pub top_middle: Rect,
    /// The right eighth at the top right.
    pub top_right: Rect,
}

/// The panel program's whole state: nothing but the exit flag.
#[derive(Clone, Copy, PartialEq, Eq, Structural, Debug)]
pub struct App {
    /// Set by the quit command; the event loop stops once it is true.
    pub exit: bool,
}

/// The four-way partition of `area`: left half; right half cut into top and
/// bottom; top-right quarter cut again into two eighths. Each split gives
/// the odd cell, when there is one, to its first part.
pub open spec fn spec_panel_layout(area: Rect) -> PanelLayout {
    let halves = area.spec_split_horizontal();
    let right = halves.1.spec_split_vertical();
    let top = right.0.spec_split_horizontal();
    PanelLayout { left: halves.0, bottom_right: right.1, top_middle: top.0, top_right: top.1 }
}

impl App {
    /// The state after one key command: `q` raises the exit flag, anything
    /// else changes nothing.
    pub open spec fn key_step(self, code: KeyCode) -> App {
        match code {
            KeyCode::Char(c) => if c == 'q' {
                App { exit: true }
            } else {
                self
            },
            _ => self,
        }
    }

    /// The state after one input event: only key presses are acted on; key
    /// releases, repeats and non-key events change nothing.
    pub open spec fn event_step(self, event: InputEvent) -> App {
        match event {
            InputEvent::Key(k) => if k.kind == KeyEventKind::Press {
                self.key_step(k.code)
            } else {
                self
            },
            InputEvent::Other => self,
        }
    }

    /// The loop state the exit flag encodes.
    pub open spec fn loop_state(self) -> LoopState {
        if self.exit {
            LoopState::Exited
        } else {
            LoopState::Running
        }
    }

    /// The state the loop ends in after consuming `events`: each event is
    /// applied in turn until the exit flag goes up or the events run out.
    pub open spec fn run_final(self, events: Seq<InputEvent>) -> App
        decreases events.len(),
    {
        if self.exit {
            self
        } else if events.len() == 0 {
            self
        } else {
            self.event_step(events[0]).run_final(events.skip(1))
        }
    }

    /// How many frames the loop draws while consuming `events`: one at the
    /// top of each iteration whose state is still running.
    pub open spec fn run_draws(self, events: Seq<InputEvent>) -> nat
        decreases events.len(),
    {
        if self.exit {
            0
        } else if events.len() == 0 {
            1
        } else {
            1 + self.event_step(events[0]).run_draws(events.skip(1))
        }
    }

    /// Applies one key command to the state.
    pub fn handle_key_event(&mut self, key_event: KeyEvent)
        ensures
            *final(self) == old(self).key_step(key_event.code),
    {
        match key_event.code {
            KeyCode::Char(c) => if c == 'q' {
                self.exit = true;
            },
            _ => {},
        }
    }

    /// Applies one input event to the state, acting only on key presses.
    pub fn handle_events(&mut self, event: InputEvent)
        ensures
            *final(self) == old(self).event_step(event),
    {
        match event {
            InputEvent::Key(key_event) => if key_event.kind == KeyEventKind::Press {
                self.handle_key_event(key_event);
            },
            InputEvent::Other => {},
        }
    }

    /// Computes the four panel regions of `area`. The state plays no part:
    /// the layout is static.
    pub fn render(&self, area: Rect) -> (layout: PanelLayout)
        requires
            area.wf(),
        ensures
            layout == spec_panel_layout(area),
            layout.left.wf(),
            layout.bottom_right.wf(),
            layout.top_middle.wf(),
            layout.top_right.wf(),
    {
        let halves = area.split_horizontal();
        let right = halves.1.split_vertical();
        let top = right.0.split_horizontal();
        PanelLayout { left: halves.0, bottom_right: right.1, top_middle: top.0, top_right: top.1 }
    }

    /// Whether the loop has reached its exited state.
    pub fn is_exited(&self) -> (e: bool)
        ensures
            e == self.exit,
            e <==> self.loop_state() == LoopState::Exited,
    {
        self.exit
    }

    /// Runs the event loop over a finished sequence of input events: draw,
    /// consume one event, and again, until a quit command raises the exit
    /// flag or the events run out. Returns how many frames were drawn.
    pub fn run(&mut self, events: &Vec<InputEvent>) -> (draws: usize)
        requires
            events@.len() < usize::MAX,
        ensures
            *final(self) == old(self).run_final(events@),
            draws == old(self).run_draws(events@),
    {
        let mut draws: usize = 0;
        let mut i: usize = 0;
        proof {
            assert(events@.skip(0) =~= events@);
        }
        while !self.exit && i < events.len()
            invariant
                i <= events@.len(),
                events@.len() < usize::MAX,
                draws == i,
                old(self).run_final(events@) == self.run_final(events@.skip(i as int)),
                old(self).run_draws(events@) == draws + self.run_draws(events@.skip(i as int)),
            decreases events@.len() - i,
        {
            draws = draws + 1;
            let event = events[i];
            proof {
                assert(events@.skip(i as int)[0] == events@[i as int]);
                assert(events@.skip(i as int).skip(1) =~= events@.skip(i as int + 1));
            }
            self.handle_events(event);
            i = i + 1;
        }
        if !self.is_exited() {
            draws = draws + 1;
        }
        draws
    }
}

impl Default for App {
    /// The initial state: exit flag down.
    fn default() -> (app: App)
        ensures
            !app.exit,
    {
        App { exit: false }
    }
}

/// Key releases, repeats and non-key events leave the state untouched.
pub proof fn lemma_non_press_is_no_op(app: App, event: InputEvent)
    requires
        match event {
            InputEvent::Key(k) => k.kind != KeyEventKind::Press,
            InputEvent::Other => true,
        },
    ensures
        app.event_step(event) == app,
{
}

/// Once the exit flag is up the loop draws nothing more and the state stays
/// as it is, whatever events still arrive.
pub proof fn lemma_exited_draws_nothing(app: App, events: Seq<InputEvent>)
    requires
        app.exit,
    ensures
        app.run_draws(events) == 0,
        app.run_final(events) == app,
{
}

/// Only a quit press can raise the exit flag.
pub proof fn lemma_only_quit_exits(app: App, event: InputEvent)
    requires
        !app.exit,
        !is_quit_press(event),
    ensures
        !app.event_step(event).exit,
{
}

/// A quit command ends the loop from any running state: when the first quit
/// press arrives as event number `i`, the loop draws exactly `i + 1` frames
/// and then stops, with the exit flag up.
pub proof fn lemma_quit_stops_loop(app: App, events: Seq<InputEvent>, i: int)
    requires
        !app.exit,
        0 <= i < events.len(),
        is_quit_press(events[i]),
        forall|j: int| 0 <= j < i ==> !is_quit_press(#[trigger] events[j]),
    ensures
        app.run_draws(events) == i + 1,
        app.run_final(events).exit,
        app.run_final(events).loop_state() == LoopState::Exited,
    decreases i,
{
    let stepped = app.event_step(events[0]);
    if i == 0 {
        assert(stepped.exit);
        lemma_exited_draws_nothing(stepped, events.skip(1));
    } else {
        lemma_only_quit_exits(app, events[0]);
        assert(events.skip(1)[i - 1] == events[i]);
        assert(forall|j: int|
            0 <= j < i - 1 ==> !is_quit_press(#[trigger] events.skip(1)[j]));
        lemma_quit_stops_loop(stepped, events.skip(1), i - 1);
    }
}

} // verus!
