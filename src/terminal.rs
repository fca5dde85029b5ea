use vstd::prelude::*;

use crate::command::{ops, Command, Op};
use crate::geometry::Position;

verus! {

/// The terminal adapter: commands are buffered here, in order, until
/// `execute` hands the whole batch over to be written to the device at once.
pub struct Terminal {
    queue: Vec<Command>,
}

impl View for Terminal {
    type V = Seq<Op>;

    /// The commands waiting to be flushed.
    closed spec fn view(&self) -> Seq<Op> {
        ops(self.queue@)
    }
}

impl Terminal {
    pub fn new() -> (r: Terminal)
        ensures
            r@ == Seq::<Op>::empty(),
    {
        let r = Terminal { queue: Vec::new() };
        proof {
            assert(ops(r.queue@) =~= Seq::<Op>::empty());
        }
        r
    }

    fn queue(&mut self, c: Command)
        ensures
            final(self)@ == old(self)@.push(c@),
    {
        self.queue.push(c);
        proof {
            assert(ops(self.queue@) =~= ops(old(self).queue@).push(c@));
        }
    }

    /// Enters raw mode, clears the screen and puts the cursor at the origin.
    pub fn initialize(&mut self)
        ensures
            final(self)@ == old(self)@ + seq![
                Op::EnableRawMode,
                Op::ClearAll,
                Op::MoveTo(Position { col: 0, row: 0 }),
            ],
    {
        self.queue(Command::EnableRawMode);
        self.clear_screen();
        self.move_cursor_to(Position { col: 0, row: 0 });
        proof {
            assert(final(self)@ =~= old(self)@ + seq![
                Op::EnableRawMode,
                Op::ClearAll,
                Op::MoveTo(Position { col: 0, row: 0 }),
            ]);
        }
    }

    /// Restores the terminal's cooked mode.
    pub fn terminate(&mut self)
        ensures
            final(self)@ == old(self)@.push(Op::DisableRawMode),
    {
        self.queue(Command::DisableRawMode);
    }

    pub fn clear_screen(&mut self)
        ensures
            final(self)@ == old(self)@.push(Op::ClearAll),
    {
        self.queue(Command::ClearAll);
    }

    pub fn clear_line(&mut self)
        ensures
            final(self)@ == old(self)@.push(Op::ClearLine),
    {
        self.queue(Command::ClearLine);
    }

    /// Absolute positioning; no clamping is done here.
    pub fn move_cursor_to(&mut self, pos: Position)
        ensures
            final(self)@ == old(self)@.push(Op::MoveTo(pos)),
    {
        self.queue(Command::MoveTo(pos));
    }

    pub fn hide_cursor(&mut self)
        ensures
            final(self)@ == old(self)@.push(Op::HideCursor),
    {
        self.queue(Command::HideCursor);
    }

    pub fn show_cursor(&mut self)
        ensures
            final(self)@ == old(self)@.push(Op::ShowCursor),
    {
        self.queue(Command::ShowCursor);
    }

    /// Writes text as it is: no line break is added and nothing is flushed.
    pub fn print(&mut self, text: String)
        ensures
            final(self)@ == old(self)@.push(Op::Print(text@)),
    {
        self.queue(Command::Print(text));
    }

    /// Hands over every buffered command followed by a flush, and leaves the
    /// buffer empty.
    pub fn execute(&mut self) -> (batch: Vec<Command>)
        ensures
            ops(batch@) == old(self)@.push(Op::Flush),
            final(self)@ == Seq::<Op>::empty(),
    {
        self.queue(Command::Flush);
        let mut batch: Vec<Command> = Vec::new();
        core::mem::swap(&mut batch, &mut self.queue);
        proof {
            assert(ops(self.queue@) =~= Seq::<Op>::empty());
        }
        batch
    }
}

} // verus!
