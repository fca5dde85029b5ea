use vstd::prelude::*;

use crate::geometry::Position;

verus! {

/// One operation that the terminal device is asked to perform.
#[derive(Clone, Debug, PartialEq, Eq)]
pub enum Command {
    EnableRawMode,
    DisableRawMode,
    HideCursor,
    ShowCursor,
    MoveTo(Position),
    ClearAll,
    ClearLine,
    Print(String),
    Flush,
}

/// The mathematical model of a `Command`: text is a sequence of characters.
pub enum Op {
    EnableRawMode,
    DisableRawMode,
    HideCursor,
    ShowCursor,
    MoveTo(Position),
    ClearAll,
    ClearLine,
    Print(Seq<char>),
    Flush,
}

impl View for Command {
    type V = Op;

    open spec fn view(&self) -> Op {
        match self {
            Command::EnableRawMode => Op::EnableRawMode,
            Command::DisableRawMode => Op::DisableRawMode,
            Command::HideCursor => Op::HideCursor,
            Command::ShowCursor => Op::ShowCursor,
            Command::MoveTo(p) => Op::MoveTo(*p),
            Command::ClearAll => Op::ClearAll,
            Command::ClearLine => Op::ClearLine,
            Command::Print(s) => Op::Print(s@),
            Command::Flush => Op::Flush,
        }
    }
}

/// The model of a sequence of commands.
pub open spec fn ops(cmds: Seq<Command>) -> Seq<Op> {
    cmds.map_values(|c: Command| c@)
}

} // verus!
