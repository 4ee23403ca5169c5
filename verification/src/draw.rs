//! The commands that a rendering pass hands to whoever owns the terminal.
use vstd::prelude::*;

verus! {

/// One command for the terminal. The commands of a pass are carried out in
/// the order in which they are returned, and flushed once at the end.
#[derive(Clone, Debug, PartialEq, Eq)]
pub enum DrawCommand {
    /// Moves the cursor to a column and a row, both counted from 0.
    MoveTo(u16, u16),
    /// Writes a text at the cursor.
    Print(String),
    /// Moves the cursor down by a number of lines, to the first column.
    MoveToNextLine(u16),
}

/// What a command says, with its text as a sequence of characters.
pub enum DrawOp {
    MoveTo(u16, u16),
    Print(Seq<char>),
    MoveToNextLine(u16),
}

impl View for DrawCommand {
    type V = DrawOp;

    open spec fn view(&self) -> DrawOp {
        match *self {
            DrawCommand::MoveTo(column, row) => DrawOp::MoveTo(column, row),
            DrawCommand::Print(text) => DrawOp::Print(text@),
            DrawCommand::MoveToNextLine(lines) => DrawOp::MoveToNextLine(lines),
        }
    }
}

/// What a list of commands says, command by command.
pub open spec fn ops(commands: Seq<DrawCommand>) -> Seq<DrawOp> {
    Seq::new(commands.len(), |i: int| commands[i]@)
}

/// Moves every command of `more` to the end of `commands`, in order.
pub fn append_commands(commands: &mut Vec<DrawCommand>, more: Vec<DrawCommand>)
    ensures
        ops(final(commands)@) == ops(old(commands)@) + ops(more@),
{
    let mut more = more;
    commands.append(&mut more);
}

} // verus!
