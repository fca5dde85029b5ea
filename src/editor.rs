use vstd::prelude::*;
use vstd::string::*;

use crate::command::{ops, Command, Op};
use crate::geometry::{last_index, Position, Size};
use crate::input::{is_navigation, is_quit_chord, Event, KeyCode, KeyEvent, KeyEventKind, CONTROL};
use crate::terminal::Terminal;
use crate::view::{render, view_ops};

verus! {

/// The caret's cell: column `x`, row `y`.
#[derive(Clone, Copy, Debug, PartialEq, Eq, Structural)]
pub struct Location {
    pub x: u16,
    pub y: u16,
}

impl Location {
    pub open spec fn within(self, size: Size) -> bool {
        self.x < size.width && self.y < size.height
    }

    pub open spec fn position(self) -> Position {
        Position { col: self.x, row: self.y }
    }
}

/// Where `code` moves the caret on a screen of `size`; saturating at the edges.
pub open spec fn moved(loc: Location, code: KeyCode, size: Size) -> Location {
    match code {
        KeyCode::Up => Location { x: loc.x, y: if loc.y > 0 { (loc.y - 1) as u16 } else { 0 } },
        KeyCode::Down => Location {
            x: loc.x,
            y: if loc.y + 1 < size.height { (loc.y + 1) as u16 } else { last_index(size.height) as u16 },
        },
        KeyCode::Left => Location { x: if loc.x > 0 { (loc.x - 1) as u16 } else { 0 }, y: loc.y },
        KeyCode::Right => Location {
            x: if loc.x + 1 < size.width { (loc.x + 1) as u16 } else { last_index(size.width) as u16 },
            y: loc.y,
        },
        KeyCode::PageUp => Location { x: loc.x, y: 0 },
        KeyCode::PageDown => Location { x: loc.x, y: last_index(size.height) as u16 },
        KeyCode::Home => Location { x: 0, y: loc.y },
        KeyCode::End => Location { x: last_index(size.width) as u16, y: loc.y },
        _ => loc,
    }
}

/// A failure of the terminal device: raw mode, size query, write or flush.
#[derive(Clone, Copy, Debug, PartialEq, Eq, Structural)]
pub struct TerminalError;

/// A failure to read the next input event.
#[derive(Clone, Copy, Debug, PartialEq, Eq, Structural)]
pub struct InputError;

/// Why a run ended abnormally.
#[derive(Clone, Copy, Debug, PartialEq, Eq, Structural)]
pub enum RunError {
    Terminal,
    Input,
    /// An outcome came back that does not answer the action asked for.
    Unexpected,
}

/// How a run ended: the run itself, and the restoring of the terminal's mode.
#[derive(Clone, Copy, Debug, PartialEq, Eq)]
pub struct ExitReport {
    pub run: Result<(), RunError>,
    pub restore: Result<(), TerminalError>,
}

impl ExitReport {
    pub open spec fn spec_is_success(&self) -> bool {
        self.run is Ok && self.restore is Ok
    }

    /// Both the run and the restoring of the terminal succeeded.
    #[verifier::when_used_as_spec(spec_is_success)]
    pub fn is_success(&self) -> (r: bool)
        ensures
            r == self.spec_is_success(),
    {
        self.run.is_ok() && self.restore.is_ok()
    }
}

/// Where the run stands: which outcome it waits for.
#[derive(Clone, Copy, Debug, PartialEq, Eq)]
pub enum Phase {
    /// Nothing has happened yet.
    Start,
    /// The terminal is being put into raw mode.
    Initializing,
    /// The size is asked for, to draw the first frame.
    Measuring,
    /// The size is asked for, to apply this event and draw the next frame.
    Evaluating(Event),
    /// A frame is being written.
    Drawing,
    /// The next input event is awaited.
    Reading,
    /// The terminal's mode is being restored; the run ended with this result.
    Terminating(Result<(), RunError>),
    /// The run is over.
    Finished(ExitReport),
}

/// What happened to the last action.
#[derive(Clone, Copy, Debug, PartialEq, Eq)]
pub enum Outcome {
    /// The run is being started.
    Started,
    /// A batch of commands was written and flushed, or failed.
    Written(Result<(), TerminalError>),
    /// The terminal's size, or the failure to learn it.
    Measured(Result<Size, TerminalError>),
    /// The next input event, or the failure to read it.
    Read(Result<Event, InputError>),
}

/// What the driver of the run must do next.
#[derive(Debug, PartialEq, Eq)]
pub enum Action {
    /// Write these commands to the terminal, in order.
    Write(Vec<Command>),
    /// Query the terminal's size.
    Measure,
    /// Block until the next input event.
    Read,
    /// Stop: the run is over.
    Exit(ExitReport),
}

/// The model of an `Action`.
pub enum ActionView {
    Write(Seq<Op>),
    Measure,
    Read,
    Exit(ExitReport),
}

impl View for Action {
    type V = ActionView;

    open spec fn view(&self) -> ActionView {
        match self {
            Action::Write(cmds) => ActionView::Write(ops(cmds@)),
            Action::Measure => ActionView::Measure,
            Action::Read => ActionView::Read,
            Action::Exit(r) => ActionView::Exit(*r),
        }
    }
}

/// The editor: the quit flag, the caret, whether the welcome banner is still
/// shown, and how far the run has come.
#[derive(Clone, Copy, Debug, PartialEq, Eq)]
pub struct Editor {
    pub should_quit: bool,
    pub location: Location,
    pub welcome: bool,
    pub phase: Phase,
}

/// A fresh editor: running, caret at the origin, banner shown, not started.
pub open spec fn initial() -> Editor {
    Editor {
        should_quit: false,
        location: Location { x: 0, y: 0 },
        welcome: true,
        phase: Phase::Start,
    }
}

/// The editor after `event` on a screen of `size`: a key press of the quit
/// chord sets the quit flag, one of a navigation key moves the caret, and
/// every other event changes nothing.
pub open spec fn after_event(e: Editor, event: Event, size: Size) -> Editor {
    match event {
        Event::Key(k) => if is_quit_chord(k) {
            Editor { should_quit: true, ..e }
        } else if k.kind == KeyEventKind::Press && is_navigation(k.code) {
            Editor { location: moved(e.location, k.code, size), ..e }
        } else {
            e
        },
        Event::Other => e,
    }
}

/// The editor after each of `events` in turn, on a screen of `size`.
pub open spec fn after_events(e: Editor, events: Seq<Event>, size: Size) -> Editor
    decreases events.len(),
{
    if events.len() == 0 {
        e
    } else {
        after_event(after_events(e, events.drop_last(), size), events.last(), size)
    }
}

/// The commands of one frame: hide the cursor and go to the origin; then
/// either clear the screen and say goodbye, or draw the viewport and put the
/// cursor on the caret; then show the cursor and flush.
pub open spec fn frame_ops(e: Editor, size: Size) -> Seq<Op> {
    let body = if e.should_quit {
        seq![Op::ClearAll, Op::Print("Goodbye.\r\n"@)]
    } else {
        view_ops(size, e.welcome) + seq![Op::MoveTo(e.location.position())]
    };
    seq![Op::HideCursor, Op::MoveTo(Position { col: 0, row: 0 })] + body + seq![
        Op::ShowCursor,
        Op::Flush,
    ]
}

/// The commands that put the terminal into raw mode and clear it.
pub open spec fn startup_ops() -> Seq<Op> {
    seq![Op::EnableRawMode, Op::ClearAll, Op::MoveTo(Position { col: 0, row: 0 }), Op::Flush]
}

/// The commands that restore the terminal's mode.
pub open spec fn teardown_ops() -> Seq<Op> {
    seq![Op::DisableRawMode, Op::Flush]
}

/// Stop the run with `result`: restore the terminal first.
pub open spec fn stop(e: Editor, result: Result<(), RunError>) -> (Editor, ActionView) {
    (Editor { phase: Phase::Terminating(result), ..e }, ActionView::Write(teardown_ops()))
}

/// Draw the next frame on a screen of `size`.
pub open spec fn draw(e: Editor, size: Size) -> (Editor, ActionView) {
    (Editor { phase: Phase::Drawing, ..e }, ActionView::Write(frame_ops(e, size)))
}

/// One step of a run: from the editor and the outcome of the last action, the
/// next editor and the next action. Every frame is drawn before the quit flag
/// is looked at, so the goodbye is shown; once raw mode has been asked for,
/// every way out passes through restoring the terminal.
pub open spec fn step(e: Editor, outcome: Outcome) -> (Editor, ActionView) {
    match e.phase {
        Phase::Start => (Editor { phase: Phase::Initializing, ..e }, ActionView::Write(startup_ops())),
        Phase::Initializing => match outcome {
            Outcome::Written(Ok(())) => (Editor { phase: Phase::Measuring, ..e }, ActionView::Measure),
            Outcome::Written(Err(_)) => stop(e, Err(RunError::Terminal)),
            _ => stop(e, Err(RunError::Unexpected)),
        },
        Phase::Measuring => match outcome {
            Outcome::Measured(Ok(size)) => draw(e, size),
            Outcome::Measured(Err(_)) => stop(e, Err(RunError::Terminal)),
            _ => stop(e, Err(RunError::Unexpected)),
        },
        Phase::Evaluating(event) => match outcome {
            Outcome::Measured(Ok(size)) => draw(after_event(e, event, size), size),
            Outcome::Measured(Err(_)) => stop(e, Err(RunError::Terminal)),
            _ => stop(e, Err(RunError::Unexpected)),
        },
        Phase::Drawing => match outcome {
            Outcome::Written(Ok(())) => if e.should_quit {
                stop(Editor { welcome: false, ..e }, Ok(()))
            } else {
                (Editor { welcome: false, phase: Phase::Reading, ..e }, ActionView::Read)
            },
            Outcome::Written(Err(_)) => stop(e, Err(RunError::Terminal)),
            _ => stop(e, Err(RunError::Unexpected)),
        },
        Phase::Reading => match outcome {
            Outcome::Read(Ok(event)) => (Editor { phase: Phase::Evaluating(event), ..e }, ActionView::Measure),
            Outcome::Read(Err(_)) => stop(e, Err(RunError::Input)),
            _ => stop(e, Err(RunError::Unexpected)),
        },
        Phase::Terminating(result) => {
            let report = match outcome {
                Outcome::Written(restore) => ExitReport { run: result, restore },
                _ => ExitReport { run: result, restore: Err(TerminalError) },
            };
            (Editor { phase: Phase::Finished(report), ..e }, ActionView::Exit(report))
        },
        Phase::Finished(report) => (e, ActionView::Exit(report)),
    }
}

impl Editor {
    pub fn new() -> (r: Editor)
        ensures
            r == initial(),
    {
        Editor {
            should_quit: false,
            location: Location { x: 0, y: 0 },
            welcome: true,
            phase: Phase::Start,
        }
    }

    /// Moves the caret for a navigation key, saturating at the edges of a
    /// screen of `size`; any other key leaves it where it is.
    pub fn move_point(&mut self, code: KeyCode, size: Size)
        ensures
            *final(self) == (Editor { location: moved(old(self).location, code, size), ..*old(self) }),
    {
        let mut x = self.location.x;
        let mut y = self.location.y;
        let height = size.height;
        let width = size.width;
        match code {
            KeyCode::Up => {
                y = y.saturating_sub(1);
            },
            KeyCode::Down => {
                let below = y.saturating_add(1);
                let bottom = height.saturating_sub(1);
                y = if below < bottom { below } else { bottom };
            },
            KeyCode::Left => {
                x = x.saturating_sub(1);
            },
            KeyCode::Right => {
                let next = x.saturating_add(1);
                let rightmost = width.saturating_sub(1);
                x = if next < rightmost { next } else { rightmost };
            },
            KeyCode::PageUp => {
                y = 0;
            },
            KeyCode::PageDown => {
                y = height.saturating_sub(1);
            },
            KeyCode::Home => {
                x = 0;
            },
            KeyCode::End => {
                x = width.saturating_sub(1);
            },
            _ => {},
        }
        self.location = Location { x, y };
    }

    /// Applies one input event on a screen of `size`: only key presses act;
    /// the quit chord sets the quit flag and navigation keys move the caret.
    pub fn evaluate_event(&mut self, event: &Event, size: Size)
        ensures
            *final(self) == after_event(*old(self), *event, size),
    {
        if let Event::Key(k) = event {
            if let KeyEventKind::Press = k.kind {
                match k.code {
                    KeyCode::Char(c) => {
                        if c == 'c' && k.modifiers == CONTROL {
                            self.should_quit = true;
                        }
                    },
                    KeyCode::Up | KeyCode::Down | KeyCode::Left | KeyCode::Right
                    | KeyCode::PageDown | KeyCode::PageUp | KeyCode::End | KeyCode::Home => {
                        self.move_point(k.code, size);
                    },
                    KeyCode::Other => {},
                }
            }
        }
    }

    /// The commands of the next frame on a screen of `size`.
    pub fn refresh_screen(&self, size: Size) -> (frame: Vec<Command>)
        ensures
            ops(frame@) == frame_ops(*self, size),
    {
        let mut term = Terminal::new();
        term.hide_cursor();
        term.move_cursor_to(Position { col: 0, row: 0 });
        if self.should_quit {
            term.clear_screen();
            term.print(String::from_str("Goodbye.\r\n"));
        } else {
            render(&mut term, size, self.welcome);
            term.move_cursor_to(Position { col: self.location.x, row: self.location.y });
        }
        term.show_cursor();
        let frame = term.execute();
        proof {
            assert(ops(frame@) =~= frame_ops(*self, size));
        }
        frame
    }

    fn stop(&mut self, result: Result<(), RunError>) -> (r: Action)
        ensures
            (*final(self), r@) == stop(*old(self), result),
    {
        self.phase = Phase::Terminating(result);
        let mut term = Terminal::new();
        term.terminate();
        let batch = term.execute();
        proof {
            assert(ops(batch@) =~= teardown_ops());
        }
        Action::Write(batch)
    }

    fn draw(&mut self, size: Size) -> (r: Action)
        ensures
            (*final(self), r@) == draw(*old(self), size),
    {
        let frame = self.refresh_screen(size);
        self.phase = Phase::Drawing;
        Action::Write(frame)
    }

    /// Advances the run by one step: takes the outcome of the last action and
    /// returns the next action for the driver to perform. Starting from a new
    /// editor with `Outcome::Started`, the run puts the terminal into raw
    /// mode, then draws a frame, stops if the quit flag is set, waits for an
    /// event, applies it, and draws again; any failure ends the run, and the
    /// terminal's mode is restored on every way out.
    pub fn run(&mut self, outcome: Outcome) -> (r: Action)
        ensures
            (*final(self), r@) == step(*old(self), outcome),
    {
        match self.phase {
            Phase::Start => {
                self.phase = Phase::Initializing;
                let mut term = Terminal::new();
                term.initialize();
                let batch = term.execute();
                proof {
                    assert(ops(batch@) =~= startup_ops());
                }
                Action::Write(batch)
            },
            Phase::Initializing => match outcome {
                Outcome::Written(Ok(())) => {
                    self.phase = Phase::Measuring;
                    Action::Measure
                },
                Outcome::Written(Err(_)) => self.stop(Err(RunError::Terminal)),
                _ => self.stop(Err(RunError::Unexpected)),
            },
            Phase::Measuring => match outcome {
                Outcome::Measured(Ok(size)) => self.draw(size),
                Outcome::Measured(Err(_)) => self.stop(Err(RunError::Terminal)),
                _ => self.stop(Err(RunError::Unexpected)),
            },
            Phase::Evaluating(event) => match outcome {
                Outcome::Measured(Ok(size)) => {
                    self.evaluate_event(&event, size);
                    self.draw(size)
                },
                Outcome::Measured(Err(_)) => self.stop(Err(RunError::Terminal)),
                _ => self.stop(Err(RunError::Unexpected)),
            },
            Phase::Drawing => match outcome {
                Outcome::Written(Ok(())) => {
                    self.welcome = false;
                    if self.should_quit {
                        self.stop(Ok(()))
                    } else {
                        self.phase = Phase::Reading;
                        Action::Read
                    }
                },
                Outcome::Written(Err(_)) => self.stop(Err(RunError::Terminal)),
                _ => self.stop(Err(RunError::Unexpected)),
            },
            Phase::Reading => match outcome {
                Outcome::Read(Ok(event)) => {
                    self.phase = Phase::Evaluating(event);
                    Action::Measure
                },
                Outcome::Read(Err(_)) => self.stop(Err(RunError::Input)),
                _ => self.stop(Err(RunError::Unexpected)),
            },
            Phase::Terminating(result) => {
                let report = match outcome {
                    Outcome::Written(restore) => ExitReport { run: result, restore },
                    _ => ExitReport { run: result, restore: Err(TerminalError) },
                };
                self.phase = Phase::Finished(report);
                Action::Exit(report)
            },
            Phase::Finished(report) => Action::Exit(report),
        }
    }
}

impl Default for Editor {
    fn default() -> (r: Editor)
        ensures
            r == initial(),
    {
        Editor::new()
    }
}

/// A press of `code` with no modifier held.
pub open spec fn press(code: KeyCode) -> Event {
    Event::Key(KeyEvent { code, modifiers: 0, kind: KeyEventKind::Press })
}

/// A single move keeps a caret that is inside a non-empty screen inside it.
pub proof fn lemma_move_stays_within(loc: Location, code: KeyCode, size: Size)
    requires
        size.is_positive(),
        loc.within(size),
    ensures
        moved(loc, code, size).within(size),
{
}

/// Whatever events arrive on a non-empty screen, a caret that starts inside
/// it stays inside it.
pub proof fn lemma_events_stay_within(e: Editor, events: Seq<Event>, size: Size)
    requires
        size.is_positive(),
        e.location.within(size),
    ensures
        after_events(e, events, size).location.within(size),
    decreases events.len(),
{
    if events.len() > 0 {
        lemma_events_stay_within(e, events.drop_last(), size);
        let before = after_events(e, events.drop_last(), size);
        if let Event::Key(k) = events.last() {
            lemma_move_stays_within(before.location, k.code, size);
        }
    }
}

/// Home puts the caret in the first column and End then in the last one,
/// wherever it was before.
pub proof fn lemma_home_then_end(loc: Location, size: Size)
    requires
        size.width > 0,
    ensures
        moved(loc, KeyCode::Home, size).x == 0,
        moved(moved(loc, KeyCode::Home, size), KeyCode::End, size).x == size.width - 1,
{
}

/// Up, pressed any number of times on the top row, leaves the caret there.
pub proof fn lemma_up_at_top(e: Editor, n: nat, size: Size)
    requires
        e.location.y == 0,
    ensures
        after_events(e, Seq::new(n, |i: int| press(KeyCode::Up)), size).location.y == 0,
    decreases n,
{
    if n > 0 {
        let ups = Seq::new(n, |i: int| press(KeyCode::Up));
        assert(ups.drop_last() =~= Seq::new((n - 1) as nat, |i: int| press(KeyCode::Up)));
        lemma_up_at_top(e, (n - 1) as nat, size);
    }
}

/// PageDown puts the caret on the last row at once, and a second PageDown
/// leaves it there.
pub proof fn lemma_page_down(loc: Location, size: Size)
    requires
        size.height > 0,
    ensures
        moved(loc, KeyCode::PageDown, size).y == size.height - 1,
        moved(moved(loc, KeyCode::PageDown, size), KeyCode::PageDown, size)
            == moved(loc, KeyCode::PageDown, size),
{
}

/// The quit chord sets the quit flag, and once set no event clears it.
pub proof fn lemma_quit_is_final(e: Editor, chord: KeyEvent, events: Seq<Event>, size: Size)
    requires
        is_quit_chord(chord),
    ensures
        after_event(e, Event::Key(chord), size).should_quit,
        e.should_quit ==> after_events(e, events, size).should_quit,
        after_events(after_event(e, Event::Key(chord), size), events, size).should_quit,
    decreases events.len(),
{
    if events.len() > 0 {
        lemma_quit_is_final(e, chord, events.drop_last(), size);
    }
}

/// No step of a run clears the quit flag.
pub proof fn lemma_run_keeps_quit(e: Editor, outcome: Outcome)
    requires
        e.should_quit,
    ensures
        step(e, outcome).0.should_quit,
{
}

/// A run only ends from the phase in which the terminal's mode is restored,
/// or after it; and every failure leads into that phase.
pub proof fn lemma_run_restores_terminal(e: Editor, outcome: Outcome)
    ensures
        step(e, outcome).1 is Exit ==> (e.phase is Terminating || e.phase is Finished),
        step(e, outcome).0.phase is Terminating ==> step(e, outcome).1 == ActionView::Write(teardown_ops()),
{
}

} // verus!
